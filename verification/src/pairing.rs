//! Rendering of the pairing banner: the QR code a user scans to reach the
//! host, framed for terminal display. Resolving the host's address and
//! printing are the caller's business; this module only computes the text.

use vstd::prelude::*;
use vstd::string::StringExecFns;

verus! {

/// The terminal rendering (two columns, one row per module, no quiet zone)
/// of the QR code that encodes `s`. It depends on `s` alone.
pub uninterp spec fn qr_text_of(s: Seq<char>) -> Seq<char>;

/// Whether `s` fits a QR code: encoding succeeds exactly on the texts
/// within some supported version's capacity, so this too depends on `s`
/// alone.
pub uninterp spec fn qr_fits(s: Seq<char>) -> bool;

/// Relies on `qrcode::QrCode::new` and its character renderer: encoding is
/// deterministic in the input text, and fails exactly when the data
/// exceeds every supported QR code version's capacity.
#[verifier::external_body]
fn render_qr(text: &str) -> (r: Option<String>)
    ensures
        r is Some <==> qr_fits(text@),
        r matches Some(q) ==> q@ == qr_text_of(text@),
{
    match qrcode::QrCode::new(text) {
        Ok(code) => Some(
            code.render::<char>().quiet_zone(false).module_dimensions(2, 1).build(),
        ),
        Err(_) => None,
    }
}

/// The banner for one pairing URL: its QR code between blank lines, ready
/// to print. A banner comes back exactly when the URL fits a QR code;
/// only a URL beyond every version's capacity yields nothing.
pub fn pairing_banner(url: &str) -> (r: Option<String>)
    ensures
        r is Some <==> qr_fits(url@),
        r matches Some(b) ==> b@ == seq!['\n'] + qr_text_of(url@) + seq!['\n'],
{
    match render_qr(url) {
        Some(q) => {
            proof {
                reveal_strlit("\n");
            }
            let mut banner = String::from_str("\n");
            banner.append(q.as_str());
            banner.append("\n");
            proof {
                assert(banner@ =~= seq!['\n'] + qr_text_of(url@) + seq!['\n']);
            }
            Some(banner)
        },
        None => None,
    }
}

} // verus!
