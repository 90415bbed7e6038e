//! Device certificates, kept as DER bytes; x509-parser and pem read and
//! encode them.

use vstd::prelude::*;
use x509_parser::prelude::{FromDer, X509Certificate};
use crate::hex::{ascii_chars, bytes_to_hex, hex_lower};

verus! {

/// How many certificates the device stores.
pub const NUM_CERTIFICATES: usize = 4;

/// Whether x509-parser reads the bytes as a certificate.
pub uninterp spec fn is_x509_der(der: Seq<u8>) -> bool;

/// The serial number of the certificate in `der`, in lowercase hex.
pub uninterp spec fn x509_serial_hex(der: Seq<u8>) -> Seq<char>;

/// The subject of the certificate in `der`, as x509-parser prints it.
pub uninterp spec fn x509_subject_text(der: Seq<u8>) -> Seq<char>;

/// The PEM text with this tag around these contents.
pub uninterp spec fn pem_text(tag: Seq<char>, contents: Seq<u8>) -> Seq<char>;

/// Relies on x509-parser's `X509Certificate::from_der`: whether it parses
/// the bytes, which depends on them alone.
#[verifier::external_body]
fn parses_as_x509(der: &[u8]) -> (r: bool)
    ensures
        r == is_x509_der(der@),
{
    X509Certificate::from_der(der).is_ok()
}

/// Relies on x509-parser's `X509Certificate::from_der` and num-bigint's
/// `BigUint::to_str_radix`: the serial number in base 16.
#[verifier::external_body]
fn serial_hex_of(der: &[u8]) -> (r: String)
    requires
        is_x509_der(der@),
    ensures
        r@ == x509_serial_hex(der@),
{
    match X509Certificate::from_der(der) {
        Ok((_, c)) => c.serial.to_str_radix(16),
        Err(_) => String::new(),
    }
}

/// Relies on x509-parser's `X509Certificate::from_der` and the `Display` of
/// its `X509Name`: the subject as text.
#[verifier::external_body]
fn subject_of(der: &[u8]) -> (r: String)
    requires
        is_x509_der(der@),
    ensures
        r@ == x509_subject_text(der@),
{
    match X509Certificate::from_der(der) {
        Ok((_, c)) => format!("{}", c.subject()),
        Err(_) => String::new(),
    }
}

/// Relies on pem's `encode` of a `Pem::new(tag, contents)`: the PEM text,
/// which depends on the tag and contents alone.
#[verifier::external_body]
fn pem_encode(tag: &str, contents: &[u8]) -> (r: String)
    ensures
        r@ == pem_text(tag@, contents@),
{
    pem::encode(&pem::Pem::new(tag, contents.to_vec()))
}

/// A certificate as DER bytes.
#[derive(Debug)]
pub struct Cert {
    pub der: Vec<u8>,
    pub len: usize,
}

impl Cert {
    /// Whether the certificate holds exactly its `len` bytes, and they parse.
    pub open spec fn wf(&self) -> bool {
        &&& self.len == self.der@.len()
        &&& is_x509_der(self.der@)
    }

    /// Takes the first `len` bytes of `der` as a certificate, if they parse.
    pub fn from_der(der: &[u8], len: usize) -> (r: Result<Cert, &'static str>)
        requires
            len <= der@.len(),
        ensures
            r is Ok <==> is_x509_der(der@.subrange(0, len as int)),
            r matches Ok(c) ==> c.wf() && c.len == len && c.der@ == der@.subrange(0, len as int),
            r matches Err(e) ==> e == "Failed to parse DER",
    {
        let owned = vstd::slice::slice_to_vec(vstd::slice::slice_subrange(der, 0, len));
        if !parses_as_x509(owned.as_slice()) {
            return Err("Failed to parse DER");
        }
        Ok(Cert { der: owned, len })
    }

    /// The certificate in PEM.
    pub fn to_pem(&self) -> (r: String)
        requires
            self.len <= self.der@.len(),
        ensures
            r@ == pem_text("CERTIFICATE"@, self.der@.subrange(0, self.len as int)),
    {
        pem_encode("CERTIFICATE", vstd::slice::slice_subrange(self.der.as_slice(), 0, self.len))
    }

    /// The DER bytes in lowercase hex.
    pub fn to_hex(&self) -> (r: String)
        requires
            self.len <= self.der@.len(),
        ensures
            r@ == ascii_chars(hex_lower(self.der@.subrange(0, self.len as int))),
    {
        bytes_to_hex(vstd::slice::slice_subrange(self.der.as_slice(), 0, self.len))
    }

    /// The serial number in lowercase hex.
    pub fn serial_hex(&self) -> (r: String)
        requires
            self.wf(),
        ensures
            r@ == x509_serial_hex(self.der@),
    {
        serial_hex_of(self.der.as_slice())
    }

    /// The subject, as text.
    pub fn subject(&self) -> (r: String)
        requires
            self.wf(),
        ensures
            r@ == x509_subject_text(self.der@),
    {
        subject_of(self.der.as_slice())
    }
}

} // verus!
