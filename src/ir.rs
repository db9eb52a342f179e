use vstd::prelude::*;

verus! {

/// A representation kind as the client wrote it: any string at all.
///
/// Nothing is rejected on construction; [`IrType::rustc_flag`] decides what
/// the compiler is asked for.
pub struct IrType(String);

impl View for IrType {
    type V = Seq<char>;

    closed spec fn view(&self) -> Seq<char> {
        self.0@
    }
}

/// The representation kinds that the compiler is asked for as written.
pub open spec fn known_kind(s: Seq<char>) -> bool {
    s == "normal"@ || s == "identified"@ || s == "expanded"@ || s == "expanded,identified"@
        || s == "expanded,hygiene"@ || s == "ast-tree"@ || s == "ast-tree,expanded"@
        || s == "hir"@ || s == "hir,identified"@ || s == "hir,typed"@ || s == "hir-tree"@
        || s == "thir-tree"@ || s == "thir-flat"@ || s == "mir"@ || s == "stable-mir"@
        || s == "mir-cfg"@
}

/// The kind that stands in for any string outside the known set.
pub open spec fn default_kind() -> Seq<char> {
    "hir"@
}

/// The value handed to the compiler for the requested kind `s`.
pub open spec fn flag_for(s: Seq<char>) -> Seq<char> {
    if known_kind(s) {
        s
    } else {
        default_kind()
    }
}

/// Whether `s` is one of the known kinds.
pub fn is_known_kind(s: &String) -> (r: bool)
    ensures
        r == known_kind(s@),
{
    *s == String::from_str("normal") || *s == String::from_str("identified")
        || *s == String::from_str("expanded") || *s == String::from_str("expanded,identified")
        || *s == String::from_str("expanded,hygiene") || *s == String::from_str("ast-tree")
        || *s == String::from_str("ast-tree,expanded") || *s == String::from_str("hir")
        || *s == String::from_str("hir,identified") || *s == String::from_str("hir,typed")
        || *s == String::from_str("hir-tree") || *s == String::from_str("thir-tree")
        || *s == String::from_str("thir-flat") || *s == String::from_str("mir")
        || *s == String::from_str("stable-mir") || *s == String::from_str("mir-cfg")
}

impl IrType {
    /// Wraps the kind exactly as the client sent it.
    pub fn new(kind: String) -> (r: IrType)
        ensures
            r@ == kind@,
    {
        IrType(kind)
    }

    /// The kind as it was sent.
    pub fn as_str(&self) -> (r: &str)
        ensures
            r@ == self@,
    {
        self.0.as_str()
    }

    /// The kind to ask the compiler for: the requested one when it is known,
    /// otherwise the default. Never fails.
    pub fn rustc_flag(&self) -> (r: &str)
        ensures
            r@ == flag_for(self@),
            known_kind(self@) ==> r@ == self@,
            !known_kind(self@) ==> r@ == default_kind(),
    {
        if is_known_kind(&self.0) {
            self.0.as_str()
        } else {
            "hir"
        }
    }
}

} // verus!
