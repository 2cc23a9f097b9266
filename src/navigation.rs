//! Which navigations the host's window keeps to itself.
use vstd::prelude::*;
use crate::text::str_eq;

verus! {

/// Whether a URL with `scheme` and `host` stays in the application window: the
/// application's own schemes and local files, and HTTP(S) to the local machine.
pub open spec fn internal_url(scheme: Seq<char>, host: Option<Seq<char>>) -> bool {
    if scheme == "tauri"@ || scheme == "asset"@ || scheme == "file"@ {
        true
    } else if scheme == "http"@ || scheme == "https"@ {
        host == Some("127.0.0.1"@) || host == Some("localhost"@)
    } else {
        false
    }
}

/// Whether a navigation to a URL with `scheme` and `host` is allowed in the window;
/// any other is opened outside it.
pub fn should_allow_internal(scheme: &str, host: Option<&str>) -> (r: bool)
    ensures
        r == internal_url(
            scheme@,
            match host {
                Some(h) => Some(h@),
                None => None,
            },
        ),
{
    if str_eq(scheme, "tauri") || str_eq(scheme, "asset") || str_eq(scheme, "file") {
        true
    } else if str_eq(scheme, "http") || str_eq(scheme, "https") {
        match host {
            Some(h) => str_eq(h, "127.0.0.1") || str_eq(h, "localhost"),
            None => false,
        }
    } else {
        false
    }
}

} // verus!
