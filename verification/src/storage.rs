//! Where uploaded images are kept in the content store.

use vstd::prelude::*;

verus! {

/// The folder profile banners are kept in.
pub const BANNER_FOLDER: &'static str = "banners/";

/// The folder profile pictures are kept in.
pub const PROFILE_PICTURE_FOLDER: &'static str = "profile_pictures/";

/// The key of a banner: its unique name in the banner folder.
pub fn banner_key(unique_name: &str) -> (key: String)
    ensures
        key@ == BANNER_FOLDER@ + unique_name@,
{
    let mut key = String::from_str(BANNER_FOLDER);
    key.append(unique_name);
    key
}

/// The key of a profile picture: its unique name in the profile picture folder.
pub fn profile_picture_key(unique_name: &str) -> (key: String)
    ensures
        key@ == PROFILE_PICTURE_FOLDER@ + unique_name@,
{
    let mut key = String::from_str(PROFILE_PICTURE_FOLDER);
    key.append(unique_name);
    key
}

/// The address an object stored under `key` is fetched from: the store's base
/// address, a slash and the key.
pub fn object_url(base_url: &str, key: &str) -> (url: String)
    ensures
        url@ == base_url@ + "/"@ + key@,
{
    let mut url = String::from_str(base_url);
    url.append("/");
    url.append(key);
    url
}

} // verus!
