//! The text form of a complex number.
use vstd::prelude::*;
use vstd::string::{to_string_from_display_ensures, StringExecFns};
use std::fmt::Display;
use crate::complex::Complex;

verus! {

/// The text form of a complex number whose parts read `re` and `im`: the
/// real part, a plus sign, the imaginary part and the letter `i`.
///
/// The sign of the imaginary part gets no special treatment: a part that
/// reads `-2` gives `3+-2i`.
pub open spec fn text_spec(re: Seq<char>, im: Seq<char>) -> Seq<char> {
    re + seq!['+'] + im + seq!['i']
}

/// Joins the text of the two parts into the text of the complex number.
pub fn join_parts(re: &str, im: &str) -> (s: String)
    ensures
        s@ == text_spec(re@, im@),
{
    proof {
        reveal_strlit("+");
        reveal_strlit("i");
        assert("+"@ =~= seq!['+']);
        assert("i"@ =~= seq!['i']);
    }
    String::from_str(re).concat("+").concat(im).concat("i")
}

impl<T> Complex<T> where T: Display {
    /// Returns the text form of `self`, with each part written as the
    /// scalar type displays it.
    pub fn to_string(&self) -> (s: String)
        ensures
            exists|re: String, im: String|
                to_string_from_display_ensures::<T>(&self.re, re)
                    && to_string_from_display_ensures::<T>(&self.im, im) && s@ == text_spec(
                    re@,
                    im@,
                ),
    {
        let re = self.re.to_string();
        let im = self.im.to_string();
        join_parts(re.as_str(), im.as_str())
    }
}

} // verus!
