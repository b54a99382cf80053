//! Provider IDs: a contract account and one of its methods, written
//! `"{contract_id}:{method_name}"`, that a contract queries (registry, sybil
//! checks, protocol configuration).
use vstd::prelude::*;
use crate::text::{chars_of, lemma_count_concat, lemma_count_contains, lemma_count_prefix, spec_count, string_from_chars};

verus! {

/// Separates the contract ID from the method name.
pub const PROVIDER_ID_DELIMITER: char = ':';

/// `"{contract_id}:{method_name}"`.
pub struct ProviderId(pub String);

/// Why a provider ID is refused.
#[derive(PartialEq, Eq, Structural, Clone, Copy)]
pub enum ProviderIdError {
    /// It does not hold exactly one delimiter.
    InvalidFormat,
    EmptyContractId,
    EmptyMethodName,
    ContractIdHasDelimiter,
    MethodNameHasDelimiter,
}

/// The text of the provider ID of `contract_id` and `method_name`.
pub open spec fn spec_provider_text(contract_id: Seq<char>, method_name: Seq<char>) -> Seq<char> {
    contract_id + seq![PROVIDER_ID_DELIMITER] + method_name
}

/// `(a, b)` are the two parts of `s` around its only delimiter.
pub open spec fn spec_is_split(s: Seq<char>, a: Seq<char>, b: Seq<char>) -> bool {
    &&& s == spec_provider_text(a, b)
    &&& !a.contains(PROVIDER_ID_DELIMITER)
    &&& !b.contains(PROVIDER_ID_DELIMITER)
}

/// Why `validate` refuses a provider ID whose text is `s`, if it does.
pub open spec fn spec_validate(s: Seq<char>) -> Result<(), ProviderIdError> {
    if spec_count(s, PROVIDER_ID_DELIMITER) != 1 {
        Err(ProviderIdError::InvalidFormat)
    } else if s[0] == PROVIDER_ID_DELIMITER {
        Err(ProviderIdError::EmptyContractId)
    } else if s.last() == PROVIDER_ID_DELIMITER {
        Err(ProviderIdError::EmptyMethodName)
    } else {
        Ok(())
    }
}

/// The characters of `v` from `start` to `end`.
fn chars_between(v: &Vec<char>, start: usize, end: usize) -> (r: Vec<char>)
    requires
        start <= end <= v@.len(),
    ensures
        r@ == v@.subrange(start as int, end as int),
{
    let mut r: Vec<char> = Vec::new();
    let mut i: usize = start;
    while i < end
        invariant
            start <= i <= end <= v@.len(),
            r@ == v@.subrange(start as int, i as int),
        decreases end - i,
    {
        r.push(v[i]);
        i += 1;
        assert(r@ =~= v@.subrange(start as int, i as int));
    }
    r
}

impl ProviderId {
    /// The provider ID of method `method_name` of contract `contract_id`.
    pub fn new(contract_id: String, method_name: String) -> (p: Self)
        ensures
            p.0@ == spec_provider_text(contract_id@, method_name@),
    {
        let mut v = chars_of(contract_id.as_str());
        v.push(PROVIDER_ID_DELIMITER);
        let m = chars_of(method_name.as_str());
        let mut i: usize = 0;
        let ghost base = v@;
        while i < m.len()
            invariant
                i <= m@.len(),
                v@ == base + m@.subrange(0, i as int),
            decreases m@.len() - i,
        {
            v.push(m[i]);
            i += 1;
            assert(v@ =~= base + m@.subrange(0, i as int));
        }
        assert(v@ =~= spec_provider_text(contract_id@, method_name@));
        ProviderId(string_from_chars(&v))
    }

    /// The contract ID and method name, when the text holds exactly one
    /// delimiter; `None` otherwise.
    pub fn try_decompose(&self) -> (r: Option<(String, String)>)
        ensures
            r is Some <==> spec_count(self.0@, PROVIDER_ID_DELIMITER) == 1,
            r matches Some(parts) ==> spec_is_split(self.0@, parts.0@, parts.1@),
    {
        let v = chars_of(self.0.as_str());
        let mut count: usize = 0;
        let mut pos: usize = 0;
        let mut i: usize = 0;
        while i < v.len()
            invariant
                i <= v@.len(),
                count == spec_count(v@.subrange(0, i as int), PROVIDER_ID_DELIMITER),
                count <= i,
                count >= 1 ==> pos < i && v@[pos as int] == PROVIDER_ID_DELIMITER
                    && spec_count(v@.subrange(0, pos as int), PROVIDER_ID_DELIMITER) == 0,
            decreases v@.len() - i,
        {
            proof {
                lemma_count_prefix(v@, i as int, PROVIDER_ID_DELIMITER);
            }
            if v[i] == PROVIDER_ID_DELIMITER {
                if count == 0 {
                    pos = i;
                }
                count += 1;
            }
            i += 1;
        }
        assert(v@.subrange(0, v@.len() as int) =~= v@);
        if count != 1 {
            return None;
        }
        let a = chars_between(&v, 0, pos);
        let b = chars_between(&v, pos + 1, v.len());
        proof {
            assert(v@ =~= a@ + seq![PROVIDER_ID_DELIMITER] + b@);
            lemma_count_concat(a@ + seq![PROVIDER_ID_DELIMITER], b@, PROVIDER_ID_DELIMITER);
            lemma_count_concat(a@, seq![PROVIDER_ID_DELIMITER], PROVIDER_ID_DELIMITER);
            assert(spec_count(seq![PROVIDER_ID_DELIMITER], PROVIDER_ID_DELIMITER) == 1) by {
                assert(seq![PROVIDER_ID_DELIMITER].drop_last() =~= Seq::<char>::empty());
            }
            lemma_count_contains(a@, PROVIDER_ID_DELIMITER);
            lemma_count_contains(b@, PROVIDER_ID_DELIMITER);
        }
        Some((string_from_chars(&a), string_from_chars(&b)))
    }

    /// The contract ID and method name; the text must hold exactly one delimiter.
    pub fn decompose(&self) -> (parts: (String, String))
        requires
            spec_count(self.0@, PROVIDER_ID_DELIMITER) == 1,
        ensures
            spec_is_split(self.0@, parts.0@, parts.1@),
    {
        match self.try_decompose() {
            Some(parts) => parts,
            None => (String::new(), String::new()),
        }
    }

    /// Checks that the text is `"{contract_id}:{method_name}"` with both parts non-empty.
    pub fn validate(&self) -> (r: Result<(), ProviderIdError>)
        ensures
            r == spec_validate(self.0@),
    {
        let (contract_id, method_name) = match self.try_decompose() {
            None => return Err(ProviderIdError::InvalidFormat),
            Some(parts) => parts,
        };
        let c = chars_of(contract_id.as_str());
        let m = chars_of(method_name.as_str());
        if c.len() == 0 {
            assert(self.0@[0] == PROVIDER_ID_DELIMITER);
            return Err(ProviderIdError::EmptyContractId);
        }
        assert(self.0@[0] == c@[0]);
        if m.len() == 0 {
            assert(self.0@.last() == PROVIDER_ID_DELIMITER);
            return Err(ProviderIdError::EmptyMethodName);
        }
        assert(self.0@.last() == m@.last());
        if contains_delimiter(&c) {
            return Err(ProviderIdError::ContractIdHasDelimiter);
        }
        if contains_delimiter(&m) {
            return Err(ProviderIdError::MethodNameHasDelimiter);
        }
        Ok(())
    }
}

/// Whether the delimiter occurs in `v`.
fn contains_delimiter(v: &Vec<char>) -> (b: bool)
    ensures
        b == v@.contains(PROVIDER_ID_DELIMITER),
{
    let mut i: usize = 0;
    while i < v.len()
        invariant
            i <= v@.len(),
            forall|j: int| 0 <= j < i ==> v@[j] != PROVIDER_ID_DELIMITER,
        decreases v@.len() - i,
    {
        if v[i] == PROVIDER_ID_DELIMITER {
            return true;
        }
        i += 1;
    }
    false
}

/// A provider ID made by `new` from parts without the delimiter decomposes
/// back into those parts: its text holds the delimiter once (so `decompose`
/// accepts it), and the only split of that text is into the two parts.
pub proof fn lemma_new_decompose(contract_id: Seq<char>, method_name: Seq<char>)
    requires
        !contract_id.contains(PROVIDER_ID_DELIMITER),
        !method_name.contains(PROVIDER_ID_DELIMITER),
    ensures
        spec_count(spec_provider_text(contract_id, method_name), PROVIDER_ID_DELIMITER) == 1,
        spec_is_split(spec_provider_text(contract_id, method_name), contract_id, method_name),
        forall|a: Seq<char>, b: Seq<char>| #[trigger] spec_is_split(spec_provider_text(contract_id, method_name), a, b)
            ==> a == contract_id && b == method_name,
{
    let d = seq![PROVIDER_ID_DELIMITER];
    lemma_count_concat(contract_id + d, method_name, PROVIDER_ID_DELIMITER);
    lemma_count_concat(contract_id, d, PROVIDER_ID_DELIMITER);
    lemma_count_contains(contract_id, PROVIDER_ID_DELIMITER);
    lemma_count_contains(method_name, PROVIDER_ID_DELIMITER);
    assert(d.drop_last() =~= Seq::<char>::empty());
    assert(spec_count(d, PROVIDER_ID_DELIMITER) == 1) by {
        reveal_with_fuel(spec_count, 2);
    }
    assert forall|a: Seq<char>, b: Seq<char>| #[trigger] spec_is_split(spec_provider_text(contract_id, method_name), a, b)
        implies a == contract_id && b == method_name by {
        lemma_split_unique(spec_provider_text(contract_id, method_name), a, b, contract_id, method_name);
    }
}

/// A text splits around its only delimiter in one way.
pub proof fn lemma_split_unique(s: Seq<char>, a: Seq<char>, b: Seq<char>, a2: Seq<char>, b2: Seq<char>)
    requires
        spec_is_split(s, a, b),
        spec_is_split(s, a2, b2),
    ensures
        a == a2,
        b == b2,
{
    if a.len() < a2.len() {
        assert(s[a.len() as int] == PROVIDER_ID_DELIMITER);
        assert(a2[a.len() as int] == s[a.len() as int]);
        assert(a2.contains(PROVIDER_ID_DELIMITER));
    } else if a2.len() < a.len() {
        assert(s[a2.len() as int] == PROVIDER_ID_DELIMITER);
        assert(a[a2.len() as int] == s[a2.len() as int]);
        assert(a.contains(PROVIDER_ID_DELIMITER));
    } else {
        assert(a =~= s.subrange(0, a.len() as int));
        assert(a2 =~= s.subrange(0, a.len() as int));
        assert(b =~= s.subrange(a.len() as int + 1, s.len() as int));
        assert(b2 =~= s.subrange(a.len() as int + 1, s.len() as int));
    }
}

} // verus!
