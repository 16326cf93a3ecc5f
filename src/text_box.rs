use string_box::StringBox;
use vstd::prelude::*;

verus! {

/// `string_box::StringBox`: the owned string cell through which text crosses the
/// boundary. The library only writes into cells that the host hands it.
#[verifier::external_type_specification]
#[verifier::external_body]
pub struct ExStringBox(StringBox);

/// The text that a string cell holds.
pub uninterp spec fn string_box_text(b: StringBox) -> Seq<char>;

/// Relies on `StringBox::set_string`: it replaces the cell's string with the one given,
/// so the cell then holds exactly that text.
pub assume_specification[ StringBox::set_string ](b: &mut StringBox, string: String)
    ensures
        string_box_text(*final(b)) == string@,
;

} // verus!
