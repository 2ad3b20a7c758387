//! What the driver reports about one device.

use crate::error::Error;
use crate::text::{decimal_digits, decimal_text};
use vstd::prelude::*;
use vstd::utf8::{decode_utf8, valid_utf8};

verus! {

/// The driver backend through which a device is reached.
#[derive(Debug, Copy, Clone, Eq, PartialEq, Hash, Structural)]
pub enum Backend {
    /// Any backend that is available.
    Any,
    /// The Linux kernel driver.
    Linux,
    LibUsb,
    Cypress,
    /// A stand-in without hardware.
    Dummy,
}

/// Number of bytes in each text field of the record, the terminating zero
/// included.
pub const TEXT_FIELD_LEN: usize = 33;

/// Where the text in a zero-terminated field ends: the position of the first
/// zero byte, or the field's length if it holds none.
pub open spec fn first_zero(field: Seq<u8>) -> int
    decreases field.len(),
{
    if field.len() == 0 || field[0] == 0 {
        0
    } else {
        1 + first_zero(field.skip(1))
    }
}

/// The bytes of the text in a zero-terminated field.
pub open spec fn field_text(field: Seq<u8>) -> Seq<u8> {
    field.take(first_zero(field))
}

/// What reading a zero-terminated field as text gives: the text that its
/// bytes encode, or an encoding error where they are not well-formed UTF-8.
pub open spec fn field_reads(field: Seq<u8>, r: Result<String, Error>) -> bool {
    if valid_utf8(field_text(field)) {
        r matches Ok(text) && text@ == decode_utf8(field_text(field))
    } else {
        r == Err::<String, Error>(Error::CString)
    }
}

/// The text of a field as it is shown: what it reads as, or `NA` where it
/// is no valid text.
pub open spec fn field_shown(field: Seq<u8>) -> Seq<char> {
    if valid_utf8(field_text(field)) {
        decode_utf8(field_text(field))
    } else {
        "NA"@
    }
}

/// The first zero byte is where no byte before is zero.
pub proof fn lemma_first_zero(field: Seq<u8>, n: int)
    requires
        0 <= n <= field.len(),
        forall|j: int| 0 <= j < n ==> field[j] != 0,
        n == field.len() || field[n] == 0,
    ensures
        first_zero(field) == n,
    decreases n,
{
    if n > 0 {
        let rest = field.skip(1);
        assert forall|j: int| 0 <= j < n - 1 implies rest[j] != 0 by {
            assert(rest[j] == field[j + 1]);
        }
        lemma_first_zero(rest, n - 1);
    }
}

/// `String::from_utf8` of the standard library: the text that the bytes
/// encode where they are well-formed UTF-8, and nothing where they are not.
#[verifier::external_body]
fn text_from_utf8(bytes: Vec<u8>) -> (r: Option<String>)
    ensures
        r is Some <==> valid_utf8(bytes@),
        r matches Some(text) ==> text@ == decode_utf8(bytes@),
{
    String::from_utf8(bytes).ok()
}

/// Reads a zero-terminated field as text.
fn read_field(field: &[u8; 33]) -> (r: Result<String, Error>)
    ensures
        field_reads(field@, r),
{
    let mut bytes: Vec<u8> = Vec::new();
    let mut i: usize = 0;
    while i < TEXT_FIELD_LEN && field[i] != 0
        invariant
            i <= TEXT_FIELD_LEN,
            field@.len() == TEXT_FIELD_LEN,
            bytes@ == field@.take(i as int),
            forall|j: int| 0 <= j < i ==> field@[j] != 0,
        decreases TEXT_FIELD_LEN - i,
    {
        bytes.push(field[i]);
        i = i + 1;
        assert(bytes@ =~= field@.take(i as int));
    }
    proof {
        lemma_first_zero(field@, i as int);
    }
    match text_from_utf8(bytes) {
        Some(text) => Ok(text),
        None => Err(Error::CString),
    }
}

fn show_field(field: &[u8; 33]) -> (text: String)
    ensures
        text@ == field_shown(field@),
{
    match read_field(field) {
        Ok(text) => text,
        Err(_) => "NA".to_owned(),
    }
}

/// What the driver reports about one device. The three text fields are
/// held as the driver gives them: zero-terminated bytes.
#[derive(Debug, Copy, Clone)]
pub struct DeviceInfo {
    pub backend: Backend,
    pub serial: [u8; 33],
    pub usb_bus: u8,
    pub usb_addr: u8,
    pub instance: u32,
    pub manufacturer: [u8; 33],
    pub product: [u8; 33],
}

impl DeviceInfo {
    pub fn backend(&self) -> (b: Backend)
        ensures
            b == self.backend,
    {
        self.backend
    }

    /// The serial number, or an encoding error where the field is no valid
    /// text.
    pub fn serial(&self) -> (r: Result<String, Error>)
        ensures
            field_reads(self.serial@, r),
    {
        read_field(&self.serial)
    }

    pub fn usb_bus(&self) -> (bus: u8)
        ensures
            bus == self.usb_bus,
    {
        self.usb_bus
    }

    pub fn usb_addr(&self) -> (addr: u8)
        ensures
            addr == self.usb_addr,
    {
        self.usb_addr
    }

    pub fn instance(&self) -> (n: u32)
        ensures
            n == self.instance,
    {
        self.instance
    }

    /// The manufacturer's name, or an encoding error where the field is no
    /// valid text.
    pub fn manufacturer(&self) -> (r: Result<String, Error>)
        ensures
            field_reads(self.manufacturer@, r),
    {
        read_field(&self.manufacturer)
    }

    /// The product's name, or an encoding error where the field is no
    /// valid text.
    pub fn product(&self) -> (r: Result<String, Error>)
        ensures
            field_reads(self.product@, r),
    {
        read_field(&self.product)
    }

    /// How the record is shown: product, bus position and serial number.
    pub open spec fn text(self) -> Seq<char> {
        field_shown(self.product@) + ", USB "@ + decimal_digits(self.usb_bus as nat) + ":"@
            + decimal_digits(self.usb_addr as nat) + ", serial="@ + field_shown(self.serial@)
    }

    /// The record as it is shown to a user.
    pub fn to_string(&self) -> (text: String)
        ensures
            text@ == self.text(),
    {
        let mut text = show_field(&self.product);
        text.append(", USB ");
        text.append(decimal_text(self.usb_bus as u64).as_str());
        text.append(":");
        text.append(decimal_text(self.usb_addr as u64).as_str());
        text.append(", serial=");
        text.append(show_field(&self.serial).as_str());
        text
    }
}

} // verus!
