use vstd::prelude::*;

verus! {

/// The symbolic name of a key code: the name of its evdev key constant
/// (`KEY_A`, `KEY_ESC`), or a text naming the code for codes without one.
pub uninterp spec fn key_name_of(code: u16) -> Seq<char>;

/// Relies on the `Debug` formatting of `evdev::Key`: it writes the constant's
/// name for a known code and a fixed text with the number for any other, so the
/// result depends on the code alone.
#[verifier::external_body]
pub(crate) fn key_name(code: u16) -> (r: String)
    ensures
        r@ == key_name_of(code),
{
    format!("{:?}", evdev::Key::new(code))
}

} // verus!
