//! The bodies of the API's POST and DELETE requests.
use vstd::prelude::*;

verus! {

/// Model for creating containers.
pub struct CreateContainer {
    pub name: String,
    pub image: String,
    pub options: String,
}

/// Model for creating pods.
pub struct CreatePod {
    pub name: String,
    pub options: String,
}

/// Model for creating networks.
pub struct CreateNetwork {
    pub name: String,
    pub options: String,
}

/// Model for getting container state.
pub struct StateContainer {
    pub name: String,
    pub state: String,
}

/// Model for getting pod state.
pub struct StatePod {
    pub name: String,
    pub state: String,
}

/// Model for creating env file.
pub struct CreateEnvFile {
    pub name: String,
    pub content: String,
    pub replace: String,
}

/// Model for creating secret.
pub struct CreateSecret {
    pub name: String,
    pub data: String,
    pub labels: String,
    pub replace: String,
}

/// Model for deleting env file.
pub struct DeleteEnvFile {
    pub name: String,
    pub key: String,
}

/// Model for deleting secrets file.
pub struct DeleteSecFile {
    pub name: String,
    pub key: String,
}

/// Model for deleting a container.
pub struct DeleteContainer {
    pub name: String,
    pub key: String,
}

/// Model for deleting unused images.
pub struct DeleteImages {
    pub key: String,
}

/// Model for deleting network.
pub struct DeleteNetwork {
    pub name: String,
    pub key: String,
}

/// Model for deleting volume
pub struct DeleteVolume {
    pub name: String,
    pub key: String,
}

/// Model for deleting pod.
pub struct DeletePod {
    pub name: String,
    pub key: String,
}

/// Model for pulling an image.
pub struct GetImage {
    pub repository: String,
    pub image: String,
    pub version: String,
}

/// Model for logging into a repository.
pub struct RepoLogin {
    pub repository: String,
    pub username: String,
    pub password: String,
}

/// Model for logging out of a repository.
pub struct RepoLogOut {
    pub repository: String,
}

/// Model for getting detailed image information.
pub struct GetImageInfo {
    pub name: String,
}

/// Model for renaming a container.
pub struct RenameContainer {
    pub current: String,
    pub new: String,
}

} // verus!
