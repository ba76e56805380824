use vstd::prelude::*;
use vstd::string::*;

verus! {

/// What `str::to_uppercase` returns for a text.
pub uninterp spec fn upper_of(s: Seq<char>) -> Seq<char>;

/// What `str::to_lowercase` returns for a text.
pub uninterp spec fn lower_of(s: Seq<char>) -> Seq<char>;

/// Every character is ASCII.
pub open spec fn is_ascii_text(s: Seq<char>) -> bool {
    forall|i: int| 0 <= i < s.len() ==> (s[i] as u32) < 128
}

/// An ASCII letter.
pub open spec fn is_ascii_letter(c: char) -> bool {
    ('a' <= c && c <= 'z') || ('A' <= c && c <= 'Z')
}

pub open spec fn ascii_upper_char(c: char) -> char {
    if 'a' <= c && c <= 'z' {
        ((c as u32) - 32) as char
    } else {
        c
    }
}

pub open spec fn ascii_lower_char(c: char) -> char {
    if 'A' <= c && c <= 'Z' {
        ((c as u32) + 32) as char
    } else {
        c
    }
}

/// ASCII upper-casing: `a` to `z` become `A` to `Z`, all else is kept.
pub open spec fn ascii_upper(s: Seq<char>) -> Seq<char> {
    s.map_values(|c: char| ascii_upper_char(c))
}

/// ASCII lower-casing: `A` to `Z` become `a` to `z`, all else is kept.
pub open spec fn ascii_lower(s: Seq<char>) -> Seq<char> {
    s.map_values(|c: char| ascii_lower_char(c))
}

/// Relies on `str::to_uppercase`: the result depends on the text alone, and on
/// ASCII text only the letters `a` to `z` change, to `A` to `Z`.
#[verifier::external_body]
fn to_upper(s: &String) -> (r: String)
    ensures
        r@ == upper_of(s@),
        is_ascii_text(s@) ==> r@ == ascii_upper(s@),
{
    s.to_uppercase()
}

/// Relies on `str::to_lowercase`: the result depends on the text alone, and on
/// ASCII text only the letters `A` to `Z` change, to `a` to `z`.
#[verifier::external_body]
fn to_lower(s: &String) -> (r: String)
    ensures
        r@ == lower_of(s@),
        is_ascii_text(s@) ==> r@ == ascii_lower(s@),
{
    s.to_lowercase()
}

/// The class of an asset identifier, which decides the data provider.
#[derive(Debug, Clone, Copy, PartialEq, Eq, Structural)]
pub enum MarketCapType {
    Gold,
    Stock,
    Crypto,
    Unknown,
}

/// `gold` or `Gold`.
pub open spec fn is_gold_name(s: Seq<char>) -> bool {
    s == seq!['g', 'o', 'l', 'd'] || s == seq!['G', 'o', 'l', 'd']
}

/// The class of `s`, given its upper-cased and lower-cased forms. The rules
/// apply in order: a gold name; the empty text is unknown; a text equal to its
/// upper-cased form is an equity ticker (so is one without letters, such as
/// `123`); one equal to its lower-cased form is a crypto id; all else is unknown.
pub open spec fn classify_folded_spec(s: Seq<char>, upper: Seq<char>, lower: Seq<char>) -> MarketCapType {
    if is_gold_name(s) {
        MarketCapType::Gold
    } else if s.len() == 0 {
        MarketCapType::Unknown
    } else if s == upper {
        MarketCapType::Stock
    } else if s == lower {
        MarketCapType::Crypto
    } else {
        MarketCapType::Unknown
    }
}

/// The class of an identifier.
pub open spec fn classify(s: Seq<char>) -> MarketCapType {
    classify_folded_spec(s, upper_of(s), lower_of(s))
}

fn is_gold_name_exec(s: &String) -> (r: bool)
    ensures
        r == is_gold_name(s@),
{
    let t = s.as_str();
    if t.unicode_len() != 4 {
        return false;
    }
    let c0 = t.get_char(0);
    let c1 = t.get_char(1);
    let c2 = t.get_char(2);
    let c3 = t.get_char(3);
    assert(s@ =~= seq![c0, c1, c2, c3]);
    (c0 == 'g' || c0 == 'G') && c1 == 'o' && c2 == 'l' && c3 == 'd'
}

/// Classifies `s` from its upper-cased and lower-cased forms.
pub fn classify_folded(s: &String, upper: &String, lower: &String) -> (r: MarketCapType)
    ensures
        r == classify_folded_spec(s@, upper@, lower@),
{
    if is_gold_name_exec(s) {
        MarketCapType::Gold
    } else if s.as_str().unicode_len() == 0 {
        MarketCapType::Unknown
    } else if *s == *upper {
        MarketCapType::Stock
    } else if *s == *lower {
        MarketCapType::Crypto
    } else {
        MarketCapType::Unknown
    }
}

/// The class of an ASCII identifier, whose case forms are the ASCII ones.
pub open spec fn classify_ascii(s: Seq<char>) -> MarketCapType {
    classify_folded_spec(s, ascii_upper(s), ascii_lower(s))
}

/// Classifies an asset identifier by the case of its letters.
pub fn identify_market_cap_type(market_cap: &String) -> (r: MarketCapType)
    ensures
        r == classify(market_cap@),
        is_ascii_text(market_cap@) ==> r == classify_ascii(market_cap@),
{
    let upper = to_upper(market_cap);
    let lower = to_lower(market_cap);
    classify_folded(market_cap, &upper, &lower)
}

/// Classification is a function of the identifier: equal identifiers get the
/// same class, which is one of the four classes.
pub proof fn lemma_classify_is_a_function(x: Seq<char>, y: Seq<char>)
    requires
        x == y,
    ensures
        classify(x) == classify(y),
        classify(x) is Gold || classify(x) is Stock || classify(x) is Crypto || classify(x) is Unknown,
{
}

proof fn lemma_letter_folds(c: char)
    requires
        is_ascii_letter(c),
    ensures
        'A' <= ascii_upper_char(c) <= 'Z',
        'a' <= ascii_lower_char(c) <= 'z',
        ascii_upper_char(ascii_upper_char(c)) == ascii_upper_char(c),
        ascii_lower_char(ascii_lower_char(c)) == ascii_lower_char(c),
        (ascii_upper_char(c) as u32) < 128,
        (ascii_lower_char(c) as u32) < 128,
{
}

/// An upper-cased word of ASCII letters is an equity ticker, and a lower-cased
/// one is a crypto id unless it is `gold`.
pub proof fn lemma_case_forms_classify(x: Seq<char>)
    requires
        x.len() > 0,
        forall|i: int| 0 <= i < x.len() ==> is_ascii_letter(#[trigger] x[i]),
    ensures
        is_ascii_text(ascii_upper(x)),
        is_ascii_text(ascii_lower(x)),
        classify_ascii(ascii_upper(x)) == MarketCapType::Stock,
        ascii_lower(x) != seq!['g', 'o', 'l', 'd'] ==> classify_ascii(ascii_lower(x))
            == MarketCapType::Crypto,
{
    let u = ascii_upper(x);
    let l = ascii_lower(x);
    assert forall|i: int| 0 <= i < x.len() implies {
        &&& 'A' <= #[trigger] u[i] <= 'Z'
        &&& 'a' <= l[i] <= 'z'
        &&& ascii_upper_char(u[i]) == u[i]
        &&& ascii_lower_char(l[i]) == l[i]
    } by {
        lemma_letter_folds(x[i]);
    }
    assert(ascii_upper(u) =~= u);
    assert(ascii_lower(l) =~= l);
    assert(!is_gold_name(u)) by {
        if u.len() == 4 {
            assert(u[1] != 'o');
        }
    }
    assert(ascii_upper(l) != l) by {
        assert(ascii_upper(l)[0] != l[0]);
    }
}

} // verus!
