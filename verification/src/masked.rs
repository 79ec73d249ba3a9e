use vstd::prelude::*;

verus! {

/// A value together with an optional text shown in its place
/// (a login name shown as the user's full name, for instance).
#[derive(Debug)]
pub struct MaskedString {
    pub value: String,
    pub mask: Option<String>,
}

/// What a masked string holds: its value and, when present, its mask.
pub struct MaskedView {
    pub value: Seq<char>,
    pub mask: Option<Seq<char>>,
}

pub open spec fn opt_view(o: Option<String>) -> Option<Seq<char>> {
    match o {
        Some(s) => Some(s@),
        None => None,
    }
}

impl View for MaskedString {
    type V = MaskedView;

    open spec fn view(&self) -> MaskedView {
        MaskedView { value: self.value@, mask: opt_view(self.mask) }
    }
}

impl MaskedView {
    /// The text that stands for the value: the mask when there is one.
    pub open spec fn shown(self) -> Seq<char> {
        match self.mask {
            Some(m) => m,
            None => self.value,
        }
    }
}

impl MaskedString {
    pub fn from(value: String, mask: Option<String>) -> (r: MaskedString)
        ensures
            r.value == value,
            r.mask == mask,
    {
        MaskedString { value, mask }
    }

    /// The empty value with no mask.
    pub fn empty() -> (r: MaskedString)
        ensures
            r.value@ == Seq::<char>::empty(),
            r.mask is None,
    {
        MaskedString { value: String::new(), mask: None }
    }

    /// The text to display: the mask if set, else the value.
    pub fn get(&self) -> (r: &str)
        ensures
            r@ == self@.shown(),
    {
        match &self.mask {
            Some(m) => m.as_str(),
            None => self.value.as_str(),
        }
    }
}

impl Default for MaskedString {
    fn default() -> (r: MaskedString)
        ensures
            r.value@ == Seq::<char>::empty(),
            r.mask is None,
    {
        MaskedString::empty()
    }
}

} // verus!
