use vstd::prelude::*;
use vstd::string::*;

verus! {

/// The cube-root strategies that can be selected.
#[derive(Clone, Copy, Debug, PartialEq, Eq, Structural)]
pub enum Variant {
    /// The platform's correctly rounded cube root.
    Exact,
    /// One multiply-add on the operand's bit pattern.
    Approx,
    /// Shift-and-add division of the bit pattern, then an integer addition.
    FastApprox,
}

/// Why a selection failed.
#[derive(Clone, Copy, Debug, PartialEq, Eq, Structural)]
pub enum SelectError {
    /// The name is not one of the strategies' names.
    InvalidVariant,
}

/// The name under which a strategy is selected.
pub open spec fn name_of(v: Variant) -> Seq<char> {
    match v {
        Variant::Exact => "exact"@,
        Variant::Approx => "approx"@,
        Variant::FastApprox => "fast-approx"@,
    }
}

/// The strategy that a name selects, if any.
pub open spec fn variant_named(name: Seq<char>) -> Option<Variant> {
    if name == "exact"@ {
        Some(Variant::Exact)
    } else if name == "approx"@ {
        Some(Variant::Approx)
    } else if name == "fast-approx"@ {
        Some(Variant::FastApprox)
    } else {
        None
    }
}

/// What selecting by `name` yields: the strategy of that name, or the
/// invalid-variant error for every other name.
pub open spec fn selection(name: Seq<char>) -> Result<Variant, SelectError> {
    match variant_named(name) {
        Some(v) => Ok(v),
        None => Err(SelectError::InvalidVariant),
    }
}

fn same_text(a: &str, b: &str) -> (r: bool)
    ensures
        r == (a@ == b@),
{
    let n = a.unicode_len();
    let m = b.unicode_len();
    if n != m {
        return false;
    }
    let mut k: usize = 0;
    while k < n
        invariant
            n == a@.len(),
            m == b@.len(),
            n == m,
            k <= n,
            forall|j: int| 0 <= j < k ==> a@[j] == b@[j],
        decreases n - k,
    {
        if a.get_char(k) != b.get_char(k) {
            return false;
        }
        k = k + 1;
    }
    assert(a@ =~= b@);
    true
}

/// Selects the strategy named `name`. Every name other than `exact`, `approx`
/// and `fast-approx` is refused with `InvalidVariant`; nothing falls back to a
/// default strategy.
pub fn select_variant(name: &str) -> (r: Result<Variant, SelectError>)
    ensures
        r == selection(name@),
        r is Ok <==> (name@ == "exact"@ || name@ == "approx"@ || name@ == "fast-approx"@),
{
    if same_text(name, "exact") {
        Ok(Variant::Exact)
    } else if same_text(name, "approx") {
        Ok(Variant::Approx)
    } else if same_text(name, "fast-approx") {
        Ok(Variant::FastApprox)
    } else {
        Err(SelectError::InvalidVariant)
    }
}

impl Variant {
    /// The name that selects this strategy.
    pub fn name(&self) -> (r: &'static str)
        ensures
            r@ == name_of(*self),
    {
        match self {
            Variant::Exact => "exact",
            Variant::Approx => "approx",
            Variant::FastApprox => "fast-approx",
        }
    }
}

/// Selecting a strategy by its own name gives that strategy back.
pub proof fn lemma_select_by_name(v: Variant)
    ensures
        selection(name_of(v)) == Ok::<Variant, SelectError>(v),
{
    reveal_strlit("exact");
    reveal_strlit("approx");
    reveal_strlit("fast-approx");
    assert("exact"@.len() == 5);
    assert("approx"@.len() == 6);
    assert("fast-approx"@.len() == 11);
}

} // verus!
