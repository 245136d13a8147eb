//! The names under which BlueZ, the Bluetooth stack, offers a device on D-Bus.

use vstd::prelude::*;
use vstd::string::*;

verus! {

/// The greatest length of a D-Bus message in bytes. An object path is sent in
/// messages, so a longer one addresses nothing.
pub const MAXIMUM_MESSAGE_LENGTH: usize = 134_217_728;

/// The number of characters of `/org/bluez/hci0/dev_`, which every device path
/// begins with.
pub const DEVICE_PREFIX_LENGTH: usize = 20;

/// The character that stands for `c` in an object path: a colon becomes an
/// underscore, every other character stays.
pub open spec fn path_char(c: char) -> char {
    if c == ':' {
        '_'
    } else {
        c
    }
}

/// The object path of the device with the given MAC address on the first
/// adapter: for `CC:6F:70:EE:4C:AD` it is `/org/bluez/hci0/dev_CC_6F_70_EE_4C_AD`.
pub open spec fn object_path(mac_address: Seq<char>) -> Seq<char> {
    "/org/bluez/hci0/dev_"@ + mac_address.map_values(|c: char| path_char(c))
}

/// A character that may stand in an element of an object path: an ASCII
/// letter, an ASCII digit or an underscore.
pub open spec fn is_name_char(c: char) -> bool {
    ||| '0' <= c <= '9'
    ||| 'A' <= c <= 'Z'
    ||| 'a' <= c <= 'z'
    ||| c == '_'
}

/// The rules of D-Bus for an object path: it begins with a slash, its elements
/// are separated by single slashes and made of name characters, none of them is
/// empty, and only the root path ends with a slash.
pub open spec fn is_object_path(path: Seq<char>) -> bool {
    &&& path.len() > 0
    &&& path[0] == '/'
    &&& forall|i: int|
        0 < i < path.len() ==> if #[trigger] path[i] == '/' {
            path[i - 1] != '/'
        } else {
            is_name_char(path[i])
        }
    &&& (path.len() > 1 ==> path.last() != '/')
}

/// What C code reads in a text: the characters before its first NUL character.
pub open spec fn c_text(text: Seq<char>) -> Seq<char>
    decreases text.len(),
{
    if text.len() == 0 || text[0] == '\0' {
        Seq::empty()
    } else {
        seq![text[0]] + c_text(text.drop_first())
    }
}

/// Whether D-Bus can address the device with the given MAC address: whether
/// the device's object path has room in a message, and what D-Bus reads of it
/// is an object path by its rules.
pub open spec fn is_addressable(mac_address: Seq<char>) -> bool {
    &&& object_path(mac_address).len() <= MAXIMUM_MESSAGE_LENGTH
    &&& is_object_path(c_text(object_path(mac_address)))
}

/// A character that is a hexadecimal digit, in either case.
pub open spec fn is_hex_char(c: char) -> bool {
    ||| '0' <= c <= '9'
    ||| 'A' <= c <= 'F'
    ||| 'a' <= c <= 'f'
}

/// A MAC address in its usual writing: six octets of two hexadecimal digits
/// each, separated by colons.
pub open spec fn is_mac_address(text: Seq<char>) -> bool {
    &&& text.len() == 17
    &&& forall|i: int|
        0 <= i < 17 ==> if i % 3 == 2 {
            #[trigger] text[i] == ':'
        } else {
            is_hex_char(text[i])
        }
}

/// A text without a NUL character is read by C code as it is.
pub proof fn lemma_c_text_without_nul(text: Seq<char>)
    requires
        forall|i: int| 0 <= i < text.len() ==> text[i] != '\0',
    ensures
        c_text(text) == text,
    decreases text.len(),
{
    if text.len() > 0 {
        lemma_c_text_without_nul(text.drop_first());
    }
}

/// Every MAC address in its usual writing can be addressed on D-Bus.
pub proof fn lemma_mac_address_is_addressable(mac_address: Seq<char>)
    requires
        is_mac_address(mac_address),
    ensures
        is_addressable(mac_address),
{
    reveal_strlit("/org/bluez/hci0/dev_");
    let path = object_path(mac_address);
    assert forall|i: int| 20 <= i < path.len() implies is_name_char(#[trigger] path[i]) by {
        assert(path[i] == path_char(mac_address[i - 20]));
    }
    lemma_c_text_without_nul(path);
}

/// `dbus::Path::new`: whether the D-Bus library accepts a text as an object
/// path. The library reads the text as a C string, that is up to its first NUL
/// character, and accepts what it reads exactly if that follows the rules of
/// D-Bus for object paths. It counts the bytes of the text in a C `int`, which
/// the bound on the length keeps from overflowing.
#[verifier::external_body]
fn dbus_accepts_path(path: &str) -> (accepted: bool)
    requires
        path@.len() <= MAXIMUM_MESSAGE_LENGTH,
    ensures
        accepted == is_object_path(c_text(path@)),
{
    dbus::Path::new(path).is_ok()
}

/// The object path under which BlueZ offers the device with the given MAC
/// address, written in hexadecimal octets separated by colons.
pub fn device_object_path(mac_address: &str) -> (path: String)
    ensures
        path@ == object_path(mac_address@),
{
    broadcast use vstd::string::axiom_spec_iter;

    let mut path = "/org/bluez/hci0/dev_".to_owned();
    for c in it: mac_address.chars()
        invariant
            it.seq() == mac_address@,
            path@ == "/org/bluez/hci0/dev_"@ + mac_address@.take(it.index() as int).map_values(
                |c: char| path_char(c),
            ),
    {
        path.push(
            if c == ':' {
                '_'
            } else {
                c
            },
        );
    }
    path
}

/// The object path of a device, if D-Bus can address the device by it.
///
/// For every MAC address in its usual writing this is the device's path.
pub fn addressable_object_path(mac_address: &str) -> (path: Option<String>)
    ensures
        is_addressable(mac_address@) ==> path is Some && path->0@ == object_path(mac_address@),
        !is_addressable(mac_address@) ==> path is None,
{
    proof {
        reveal_strlit("/org/bluez/hci0/dev_");
    }
    if mac_address.unicode_len() > MAXIMUM_MESSAGE_LENGTH - DEVICE_PREFIX_LENGTH {
        return None;
    }
    let path = device_object_path(mac_address);
    if dbus_accepts_path(path.as_str()) {
        Some(path)
    } else {
        None
    }
}

} // verus!
