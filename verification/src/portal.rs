//! The fixed addresses of the colour-scheme setting on the session bus.

use vstd::prelude::*;
use vstd::string::*;
use vstd::utf8::*;

verus! {

/// Well-known bus name of the desktop portal.
pub const SERVICE: &'static str = "org.freedesktop.portal.Desktop";

/// Object path on which the portal exports its interfaces.
pub const OBJECT_PATH: &'static str = "/org/freedesktop/portal/desktop";

/// The settings interface.
pub const INTERFACE: &'static str = "org.freedesktop.portal.Settings";

/// Namespace of the appearance settings.
pub const NAMESPACE: &'static str = "org.freedesktop.appearance";

/// Key of the colour-scheme setting inside [`NAMESPACE`].
pub const COLOR_SCHEME: &'static str = "color-scheme";

/// Method that returns the value wrapped in one variant.
pub const READ_ONE: &'static str = "ReadOne";

/// Older method that returns the value wrapped in two variants.
pub const READ: &'static str = "Read";

/// Property that holds the version of the settings interface.
pub const VERSION: &'static str = "version";

/// Broadcast signal that announces a change of any setting.
pub const SETTING_CHANGED: &'static str = "SettingChanged";

/// First version of the settings interface that offers [`READ_ONE`].
pub const MODERN_VERSION: u32 = 2;

/// Time allowed for one method call, in milliseconds.
pub const CALL_TIMEOUT_MS: u64 = 100;

/// Longest wait of one polling iteration, in milliseconds.
pub const POLL_TIMEOUT_MS: u64 = 1000;

/// Whether two strings hold the same text, decided byte for byte on their
/// UTF-8 encodings.
pub fn same_text(a: &str, b: &str) -> (same: bool)
    ensures
        same == (a@ == b@),
{
    let x = a.as_bytes();
    let y = b.as_bytes();
    proof {
        encode_utf8_decode_utf8(a@);
        encode_utf8_decode_utf8(b@);
    }
    if x.len() != y.len() {
        return false;
    }
    let mut i: usize = 0;
    while i < x.len()
        invariant
            x@ == encode_utf8(a@),
            y@ == encode_utf8(b@),
            decode_utf8(encode_utf8(a@)) == a@,
            decode_utf8(encode_utf8(b@)) == b@,
            x@.len() == y@.len(),
            i <= x@.len(),
            forall|j: int| 0 <= j < i ==> x@[j] == y@[j],
        decreases x@.len() - i,
    {
        if x[i] != y[i] {
            return false;
        }
        i += 1;
    }
    assert(x@ =~= y@);
    true
}

/// Whether a namespace and a key address the colour-scheme setting.
pub fn is_color_scheme(namespace: &str, key: &str) -> (matches: bool)
    ensures
        matches == (namespace@ == NAMESPACE@ && key@ == COLOR_SCHEME@),
{
    same_text(namespace, NAMESPACE) && same_text(key, COLOR_SCHEME)
}

} // verus!
