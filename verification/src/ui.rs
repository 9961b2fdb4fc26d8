//! The navigation panel's own state: the jump-to text fields and the reason
//! the last jump was refused.
//!
//! Reading a coordinate out of its text is the caller's business; this module
//! decides which refusal to report and what the panel remembers.

use vstd::prelude::*;

verus! {

/// Refusal shown when the real part cannot be read as a finite number.
pub const RE_NOT_FINITE: &'static str = "re is not a finite number";

/// Refusal shown when the imaginary part cannot be read as a finite number.
pub const IM_NOT_FINITE: &'static str = "im is not a finite number";

/// Scratch state belonging to the panel itself
pub struct PanelState {
    pub re_text: String,
    pub im_text: String,
    /// Why the last "go" was refused, shown under the fields.
    jump_error: Option<&'static str>,
}

/// The outcome of a jump request whose parts read as `re` and `im`: both
/// parts, or the refusal for the first part that could not be read.
pub open spec fn spec_center_from_parts<T>(re: Option<T>, im: Option<T>) -> Result<(T, T), &'static str> {
    match re {
        None => Err(RE_NOT_FINITE),
        Some(x) => match im {
            None => Err(IM_NOT_FINITE),
            Some(y) => Ok((x, y)),
        },
    }
}

/// Combine the two parts of a jump target, reporting the real part's
/// refusal first.
pub fn center_from_parts<T>(re: Option<T>, im: Option<T>) -> (r: Result<(T, T), &'static str>)
    ensures
        r == spec_center_from_parts(re, im),
        r is Ok <==> (re is Some && im is Some),
        re is None ==> r == Err::<(T, T), &'static str>(RE_NOT_FINITE),
        re is Some && im is None ==> r == Err::<(T, T), &'static str>(IM_NOT_FINITE),
        re is Some && im is Some ==> r == Ok::<(T, T), &'static str>((re->0, im->0)),
{
    match re {
        None => Err(RE_NOT_FINITE),
        Some(x) => match im {
            None => Err(IM_NOT_FINITE),
            Some(y) => Ok((x, y)),
        },
    }
}

/// The refusals name the part that could not be read, and differ.
pub proof fn law_refusal_messages()
    ensures
        RE_NOT_FINITE@ == "re is not a finite number"@,
        IM_NOT_FINITE@ == "im is not a finite number"@,
        RE_NOT_FINITE@ != IM_NOT_FINITE@,
{
    reveal_strlit("re is not a finite number");
    reveal_strlit("im is not a finite number");
    assert(RE_NOT_FINITE@[0] != IM_NOT_FINITE@[0]);
}

impl PanelState {
    /// The text of the real-part field.
    pub closed spec fn spec_re_text(&self) -> String {
        self.re_text
    }

    /// The text of the imaginary-part field.
    pub closed spec fn spec_im_text(&self) -> String {
        self.im_text
    }

    /// Why the last jump was refused, if it was.
    pub closed spec fn spec_jump_error(&self) -> Option<&'static str> {
        self.jump_error
    }

    pub fn jump_error(&self) -> (r: Option<&'static str>)
        ensures
            r == self.spec_jump_error(),
    {
        self.jump_error
    }

    /// Record the outcome of pressing "go": a target clears any earlier
    /// refusal and is handed back to jump to; a refusal is kept for display
    /// and nothing is handed back.
    pub fn record_jump<T>(&mut self, outcome: Result<T, &'static str>) -> (r: Option<T>)
        ensures
            final(self).spec_re_text() == old(self).spec_re_text(),
            final(self).spec_im_text() == old(self).spec_im_text(),
            match outcome {
                Ok(t) => r == Some(t) && final(self).spec_jump_error() == None::<&'static str>,
                Err(why) => r == None::<T> && final(self).spec_jump_error() == Some(why),
            },
    {
        match outcome {
            Ok(target) => {
                self.jump_error = None;
                Some(target)
            },
            Err(why) => {
                self.jump_error = Some(why);
                None
            },
        }
    }
}

impl Default for PanelState {
    fn default() -> (r: Self)
        ensures
            r.spec_re_text()@ == Seq::<char>::empty(),
            r.spec_im_text()@ == Seq::<char>::empty(),
            r.spec_jump_error() == None::<&'static str>,
    {
        PanelState { re_text: String::new(), im_text: String::new(), jump_error: None }
    }
}

} // verus!
