//! What the registry gateway decides between its calls: how an image is
//! referred to, where the signature of an artifact is kept, which manifest
//! and which layer hold the payload, and when an answer is refused.

use crate::text::{same_text, strip_prefix};
use vstd::prelude::*;
use vstd::string::StringExecFns;

verus! {

/// The registry's answer to a request for the tags of a repository.
#[derive(Debug)]
pub struct RegistryTagList {
    pub name: String,
    pub tags: Vec<String>,
}

/// Why the gateway refuses what the registry sent.
#[derive(Clone, Copy, Debug, PartialEq, Eq, Structural)]
pub enum GatewayError {
    /// An image index lists no manifest.
    EmptyIndex,
    /// A manifest that had to be an image manifest is an index.
    NotAnImage,
    /// An image manifest has no layer.
    NoLayers,
    /// The signature layer carries no signature.
    NoSignature,
    /// A blob came back empty.
    EmptyBlob,
    /// The signed payload names another manifest than the artifact's.
    DigestMismatch,
    /// A manifest names its layers in no form that the gateway reads.
    UnsupportedManifest,
}

/// A layer of an image, as far as the gateway reads it.
#[derive(Debug)]
pub struct Layer {
    pub digest: String,
    /// The signature that is attached to the layer, if any.
    pub signature: Option<String>,
}

/// A manifest, as far as the gateway reads it.
#[derive(Debug)]
pub enum Manifest {
    /// An image with its layers.
    Image { layers: Vec<Layer> },
    /// An index with the digests of the manifests that it lists.
    Index { manifests: Vec<String> },
}

/// The reference of a repository.
pub open spec fn repository_reference(registry: Seq<char>, repository: Seq<char>) -> Seq<char> {
    registry + seq!['/'] + repository
}

/// The reference of an image: that of its repository, `:`, and the tag.
pub open spec fn tagged_reference(
    registry: Seq<char>,
    repository: Seq<char>,
    tag: Seq<char>,
) -> Seq<char> {
    repository_reference(registry, repository) + seq![':'] + tag
}

/// The text by which an image, or its repository where no tag is given, is
/// referred to.
pub fn image_path(registry: &str, repository: &str, tag: Option<&str>) -> (reference: String)
    ensures
        reference@ == match tag {
            Some(t) => tagged_reference(registry@, repository@, t@),
            None => repository_reference(registry@, repository@),
        },
{
    proof {
        reveal_strlit("/");
        reveal_strlit(":");
        assert("/"@ =~= seq!['/']);
        assert(":"@ =~= seq![':']);
    }
    let mut reference = String::from_str(registry);
    reference.append("/");
    reference.append(repository);
    if let Some(t) = tag {
        reference.append(":");
        reference.append(t);
    }
    reference
}

/// The path of a device's repository below a base repository.
pub fn repo_path(base_repo: &str, device: &str) -> (path: String)
    ensures
        path@ == repository_reference(base_repo@, device@),
{
    image_path(base_repo, device, None)
}

/// The hexadecimal part of a digest: what follows `sha256:`, or all of it
/// where it does not start so.
pub open spec fn digest_hex(digest: Seq<char>) -> Seq<char> {
    if "sha256:"@.is_prefix_of(digest) {
        digest.skip("sha256:"@.len() as int)
    } else {
        digest
    }
}

/// The tag under which the signature of an artifact is kept.
pub open spec fn signature_tag_of(manifest_digest: Seq<char>) -> Seq<char> {
    "sha256-"@ + digest_hex(manifest_digest) + ".sig"@
}

/// The tag under which the signature of the artifact with this manifest
/// digest is kept: `sha256-`, the digest without its `sha256:`, and `.sig`.
pub fn signature_tag(manifest_digest: &str) -> (tag: String)
    ensures
        tag@ == signature_tag_of(manifest_digest@),
{
    let hex = match strip_prefix(manifest_digest, "sha256:") {
        Some(rest) => {
            assert("sha256:"@.is_prefix_of(manifest_digest@));
            assert(manifest_digest@.skip("sha256:"@.len() as int) =~= rest@);
            rest
        },
        None => manifest_digest,
    };
    let mut tag = String::from_str("sha256-");
    tag.append(hex);
    tag.append(".sig");
    tag
}

/// Which manifest holds the layers: for an index the first manifest that it
/// lists, by its digest; for an image the image itself (`None`). An index
/// that lists nothing is refused.
pub fn index_target(manifest: &Manifest) -> (r: Result<Option<&str>, GatewayError>)
    ensures
        match manifest {
            Manifest::Image { .. } => r == Ok::<Option<&str>, GatewayError>(None),
            Manifest::Index { manifests } => if manifests@.len() > 0 {
                r matches Ok(Some(digest)) && digest@ == manifests@[0]@
            } else {
                r == Err::<Option<&str>, GatewayError>(GatewayError::EmptyIndex)
            },
        },
{
    match manifest {
        Manifest::Image { .. } => Ok(None),
        Manifest::Index { manifests } => {
            if manifests.len() > 0 {
                Ok(Some(manifests[0].as_str()))
            } else {
                Err(GatewayError::EmptyIndex)
            }
        },
    }
}

/// The layer that holds the payload: the first layer of an image. An index
/// and an image without layers are refused.
pub fn first_layer(manifest: &Manifest) -> (r: Result<&Layer, GatewayError>)
    ensures
        match manifest {
            Manifest::Image { layers } => if layers@.len() > 0 {
                r matches Ok(layer) && *layer == layers@[0]
            } else {
                r matches Err(e) && e == GatewayError::NoLayers
            },
            Manifest::Index { .. } => r matches Err(e) && e == GatewayError::NotAnImage,
        },
{
    match manifest {
        Manifest::Image { layers } => {
            if layers.len() > 0 {
                Ok(&layers[0])
            } else {
                Err(GatewayError::NoLayers)
            }
        },
        Manifest::Index { .. } => Err(GatewayError::NotAnImage),
    }
}

/// The layer that holds the signed payload, with the signature that is
/// attached to it: the first layer of the signature image.
pub fn signature_layer(manifest: &Manifest) -> (r: Result<(&Layer, &str), GatewayError>)
    ensures
        match manifest {
            Manifest::Image { layers } => if layers@.len() == 0 {
                r matches Err(e) && e == GatewayError::NoLayers
            } else {
                match layers@[0].signature {
                    Some(signature) => r matches Ok((layer, s)) && *layer == layers@[0] && s@
                        == signature@,
                    None => r matches Err(e) && e == GatewayError::NoSignature,
                }
            },
            Manifest::Index { .. } => r matches Err(e) && e == GatewayError::NotAnImage,
        },
{
    match first_layer(manifest) {
        Ok(layer) => match &layer.signature {
            Some(signature) => Ok((layer, signature.as_str())),
            None => Err(GatewayError::NoSignature),
        },
        Err(e) => Err(e),
    }
}

/// A blob that came back empty is refused.
pub fn check_blob(data: &Vec<u8>) -> (r: Result<(), GatewayError>)
    ensures
        r is Ok <==> data@.len() > 0,
        r matches Err(e) ==> e == GatewayError::EmptyBlob,
{
    if data.len() == 0 {
        Err(GatewayError::EmptyBlob)
    } else {
        Ok(())
    }
}

/// A signed payload counts only if it names the manifest of the artifact.
pub fn check_signed_digest(signed: &str, manifest_digest: &str) -> (r: Result<(), GatewayError>)
    ensures
        r is Ok <==> signed@ == manifest_digest@,
        r matches Err(e) ==> e == GatewayError::DigestMismatch,
{
    if same_text(signed, manifest_digest) {
        Ok(())
    } else {
        Err(GatewayError::DigestMismatch)
    }
}

/// The digest of the blob that a manifest points at: that of its first
/// layer where it has layers, else the first blob sum of an older manifest.
/// A manifest with neither list is refused, and so is an empty list.
pub fn extract_blob_digest<'a>(
    layers: Option<&'a Vec<String>>,
    fs_layers: Option<&'a Vec<String>>,
) -> (r: Result<&'a str, GatewayError>)
    ensures
        match (layers, fs_layers) {
            (Some(l), _) => if l@.len() > 0 {
                r matches Ok(d) && d@ == l@[0]@
            } else {
                r matches Err(e) && e == GatewayError::NoLayers
            },
            (None, Some(f)) => if f@.len() > 0 {
                r matches Ok(d) && d@ == f@[0]@
            } else {
                r matches Err(e) && e == GatewayError::NoLayers
            },
            (None, None) => r matches Err(e) && e == GatewayError::UnsupportedManifest,
        },
{
    match layers {
        Some(l) => {
            if l.len() > 0 {
                Ok(l[0].as_str())
            } else {
                Err(GatewayError::NoLayers)
            }
        },
        None => match fs_layers {
            Some(f) => {
                if f.len() > 0 {
                    Ok(f[0].as_str())
                } else {
                    Err(GatewayError::NoLayers)
                }
            },
            None => Err(GatewayError::UnsupportedManifest),
        },
    }
}

/// Whether requests to the registry carry a name and a password: only
/// where both are configured.
pub fn uses_basic_auth(username: &Option<String>, password: &Option<String>) -> (r: bool)
    ensures
        r == (username is Some && password is Some),
{
    username.is_some() && password.is_some()
}

/// Whether a media type is that of a list of manifests, which has to be
/// followed to its first entry.
pub fn is_manifest_list(media_type: &str) -> (r: bool)
    ensures
        r == (media_type@ == "application/vnd.docker.distribution.manifest.list.v2+json"@
            || media_type@ == "application/vnd.oci.image.index.v1+json"@),
{
    same_text(media_type, "application/vnd.docker.distribution.manifest.list.v2+json")
        || same_text(media_type, "application/vnd.oci.image.index.v1+json")
}

} // verus!
