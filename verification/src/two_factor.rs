//! The two-factor enrolment screen: an `otpauth://` URL for an
//! authenticator app, shown as a QR code made by the `qrcode` crate.
use vstd::prelude::*;
use vstd::string::*;
use crate::paths::opt_view;
use crate::text::join5;
use qrcode::render::unicode::Dense1x2;

verus! {

/// The issuer named in the enrolment URL.
pub open spec fn issuer() -> Seq<char> {
    "PASSop"@
}

/// The account named in the enrolment URL.
pub open spec fn account() -> Seq<char> {
    "user@domain.com"@
}

/// The shared secret, in base32, as the authenticator app takes it.
pub open spec fn shared_secret() -> Seq<char> {
    "JBSWY3DPEHPK3PXP"@
}

/// The `otpauth://totp` URL for `account` at `issuer` with `secret`.
pub open spec fn otpauth_url_spec(issuer: Seq<char>, account: Seq<char>, secret: Seq<char>) -> Seq<
    char,
> {
    "otpauth://totp/"@ + issuer + ":"@ + account + "?secret="@ + secret + "&issuer="@ + issuer
}

/// The `otpauth://totp` URL for `account` at `issuer` with `secret`.
pub fn otpauth_url(issuer: &str, account: &str, secret: &str) -> (r: String)
    ensures
        r@ == otpauth_url_spec(issuer@, account@, secret@),
{
    let mut r = join5("otpauth://totp/", issuer, ":", account, "?secret=");
    r.append(secret);
    r.append("&issuer=");
    r.append(issuer);
    r
}

/// The shared secret shown next to the QR code.
pub fn secret_key() -> (r: String)
    ensures
        r@ == shared_secret(),
{
    String::from_str("JBSWY3DPEHPK3PXP")
}

/// The enrolment URL of PASSop.
pub fn enrolment_url() -> (r: String)
    ensures
        r@ == otpauth_url_spec(issuer(), account(), shared_secret()),
{
    otpauth_url("PASSop", "user@domain.com", "JBSWY3DPEHPK3PXP")
}

/// What `QrCode::new` makes of the UTF-8 bytes of `data` (at the default
/// error correction level), drawn by `render::<unicode::Dense1x2>` with dark
/// modules dark and light modules light: the text, or nothing when the data
/// cannot be encoded.
pub uninterp spec fn qr_dense_text(data: Seq<char>) -> Option<Seq<char>>;

/// Calls `qrcode::QrCode::new` on the UTF-8 bytes of `data` and renders the
/// code with `render::<unicode::Dense1x2>`, two rows of modules per line of
/// text. The contract claims that the outcome is the one `qr_dense_text`
/// names for `data`.
#[verifier::external_body]
fn qr_render_text(data: &str) -> (r: Option<String>)
    ensures
        opt_view(&r) == qr_dense_text(data@),
{
    match qrcode::QrCode::new(data.as_bytes()) {
        Ok(code) => Some(
            code.render::<Dense1x2>().dark_color(Dense1x2::Dark).light_color(Dense1x2::Light).build(),
        ),
        Err(_) => None,
    }
}

/// The QR code of `data` drawn as text, or nothing when `data` cannot be
/// encoded.
pub fn qr_text(data: &str) -> (r: Option<String>)
    ensures
        opt_view(&r) == qr_dense_text(data@),
{
    qr_render_text(data)
}

/// The QR code of the enrolment URL drawn as text, or nothing when it cannot
/// be encoded.
pub fn enrolment_qr() -> (r: Option<String>)
    ensures
        opt_view(&r) == qr_dense_text(otpauth_url_spec(issuer(), account(), shared_secret())),
{
    let url = enrolment_url();
    qr_text(url.as_str())
}

/// What reading a key from the terminal gave while the enrolment screen is
/// shown.
pub enum KeyRead {
    /// The Escape key.
    Escape,
    /// Any other key.
    Other,
    /// The terminal could not be read.
    Failed,
}

/// Whether the enrolment screen is left after this key: only Escape leaves
/// it; any other key, or a failed read, keeps waiting.
pub fn leaves_enrolment(key: &KeyRead) -> (r: bool)
    ensures
        r <==> key is Escape,
{
    match key {
        KeyRead::Escape => true,
        _ => false,
    }
}

} // verus!
