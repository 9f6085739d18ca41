//! The validator client kinds and how a database text names them.

use std::sync::Arc;

use vstd::prelude::*;
use vstd::string::StrSliceExecFns;
use vstd::string::StringExecFns;

use crate::text::{
    all_white_space, chars_of, eq_ignore_ascii_case_at, lemma_lower_trim, lemma_trim_surrounded,
    lower, trim, trim_bounds,
};

verus! {

broadcast use vstd::string::group_string_axioms;

/// Solana validator client type.
///
/// An unknown or NULL value keeps its (trimmed) raw text in `Other`, as an
/// `Arc<str>`: two words instead of three, and a clone that costs one atomic
/// increment. SQL NULL is `Other("")`, which `is_harmonic` reports as `false`.
#[derive(Debug, Clone, PartialEq, Eq)]
pub enum ClientType {
    Agave,
    AgaveBam,
    FireDancer,
    FrankenDancer,
    HarmonicAgave,
    HarmonicFrankenDancer,
    JitoLabs,
    Rakurai,
    /// Unknown or NULL; the raw text, trimmed.
    Other(Arc<str>),
}

/// The mathematical value of a `ClientType`: the variant, and for `Other` its text.
pub enum ClientTypeView {
    Agave,
    AgaveBam,
    FireDancer,
    FrankenDancer,
    HarmonicAgave,
    HarmonicFrankenDancer,
    JitoLabs,
    Rakurai,
    Other(Seq<char>),
}

impl View for ClientType {
    type V = ClientTypeView;

    open spec fn view(&self) -> ClientTypeView {
        match self {
            ClientType::Agave => ClientTypeView::Agave,
            ClientType::AgaveBam => ClientTypeView::AgaveBam,
            ClientType::FireDancer => ClientTypeView::FireDancer,
            ClientType::FrankenDancer => ClientTypeView::FrankenDancer,
            ClientType::HarmonicAgave => ClientTypeView::HarmonicAgave,
            ClientType::HarmonicFrankenDancer => ClientTypeView::HarmonicFrankenDancer,
            ClientType::JitoLabs => ClientTypeView::JitoLabs,
            ClientType::Rakurai => ClientTypeView::Rakurai,
            ClientType::Other(s) => ClientTypeView::Other((**s)@),
        }
    }
}

/// `str::eq_ignore_ascii_case` on character sequences.
pub open spec fn eq_ignore_ascii_case(a: Seq<char>, b: Seq<char>) -> bool {
    lower(a) == lower(b)
}

/// The client type that an already trimmed text names: its spellings are
/// compared without regard to ASCII case, in this order, and anything else is `Other`.
pub open spec fn classify(t: Seq<char>) -> ClientTypeView {
    if eq_ignore_ascii_case(t, "agave"@) {
        ClientTypeView::Agave
    } else if eq_ignore_ascii_case(t, "agave_bam"@) || eq_ignore_ascii_case(t, "agavebam"@) {
        ClientTypeView::AgaveBam
    } else if eq_ignore_ascii_case(t, "firedancer"@) || eq_ignore_ascii_case(t, "fire_dancer"@) {
        ClientTypeView::FireDancer
    } else if eq_ignore_ascii_case(t, "frankendancer"@) || eq_ignore_ascii_case(
        t,
        "franken_dancer"@,
    ) {
        ClientTypeView::FrankenDancer
    } else if eq_ignore_ascii_case(t, "harmonicagave"@) || eq_ignore_ascii_case(
        t,
        "harmonic_agave"@,
    ) {
        ClientTypeView::HarmonicAgave
    } else if eq_ignore_ascii_case(t, "harmonicfrankendancer"@) || eq_ignore_ascii_case(
        t,
        "harmonic_frankendancer"@,
    ) || eq_ignore_ascii_case(t, "harmonic_franken_dancer"@) {
        ClientTypeView::HarmonicFrankenDancer
    } else if eq_ignore_ascii_case(t, "jitolabs"@) || eq_ignore_ascii_case(t, "jito_labs"@)
        || eq_ignore_ascii_case(t, "jito"@) {
        ClientTypeView::JitoLabs
    } else if eq_ignore_ascii_case(t, "rakurai"@) {
        ClientTypeView::Rakurai
    } else {
        ClientTypeView::Other(t)
    }
}

/// The client type that a text names: white space around it does not count.
pub open spec fn parse_client_type(s: Seq<char>) -> ClientTypeView {
    classify(trim(s))
}

/// The client type of a nullable database value: NULL is `Other("")`.
pub open spec fn parse_nullable_client_type(s: Option<Seq<char>>) -> ClientTypeView {
    match s {
        Some(t) => parse_client_type(t),
        None => ClientTypeView::Other(Seq::empty()),
    }
}

/// The text of a nullable database value.
pub open spec fn nullable_text(v: Option<String>) -> Option<Seq<char>> {
    match v {
        Some(s) => Some(s@),
        None => None,
    }
}

/// Whether a client type is one of the Harmonic variants.
pub open spec fn is_harmonic_client(c: ClientTypeView) -> bool {
    c is HarmonicAgave || c is HarmonicFrankenDancer
}

/// The text by which a client type is displayed.
pub open spec fn display_text(c: ClientTypeView) -> Seq<char> {
    match c {
        ClientTypeView::Agave => "Agave"@,
        ClientTypeView::AgaveBam => "AgaveBam"@,
        ClientTypeView::FireDancer => "FireDancer"@,
        ClientTypeView::FrankenDancer => "FrankenDancer"@,
        ClientTypeView::HarmonicAgave => "HarmonicAgave"@,
        ClientTypeView::HarmonicFrankenDancer => "HarmonicFrankenDancer"@,
        ClientTypeView::JitoLabs => "JitoLabs"@,
        ClientTypeView::Rakurai => "Rakurai"@,
        ClientTypeView::Other(s) => "Other("@ + s + ")"@,
    }
}

/// White space before and after a text does not change the client type it names.
pub proof fn law_parse_ignores_surrounding_white_space(pre: Seq<char>, s: Seq<char>, post: Seq<char>)
    requires
        all_white_space(pre),
        all_white_space(post),
    ensures
        parse_client_type(pre + s + post) == parse_client_type(s),
{
    lemma_trim_surrounded(pre, s, post);
}

/// Texts that differ only in ASCII case name the same known client type, and
/// if one of them names no known client type, neither does the other.
pub proof fn law_parse_ignores_ascii_case(s1: Seq<char>, s2: Seq<char>)
    requires
        lower(s1) == lower(s2),
    ensures
        (parse_client_type(s1) is Other) == (parse_client_type(s2) is Other),
        !(parse_client_type(s1) is Other) ==> parse_client_type(s1) == parse_client_type(s2),
{
    lemma_lower_trim(s1);
    lemma_lower_trim(s2);
}

/// A text that names no known client type is kept, trimmed, in `Other`.
pub proof fn law_unknown_text_kept_trimmed(s: Seq<char>)
    ensures
        parse_client_type(s) is Other ==> parse_client_type(s) == ClientTypeView::Other(trim(s)),
{
}

/// NULL is `Other("")`, which is not a Harmonic client.
pub proof fn law_null_is_not_harmonic()
    ensures
        parse_nullable_client_type(None) == ClientTypeView::Other(Seq::empty()),
        !is_harmonic_client(parse_nullable_client_type(None)),
{
}

/// The spellings of the known client types, lower-case.
pub open spec fn is_listed_spelling(l: Seq<char>) -> bool {
    ||| l == "agave"@
    ||| l == "agave_bam"@
    ||| l == "agavebam"@
    ||| l == "firedancer"@
    ||| l == "fire_dancer"@
    ||| l == "frankendancer"@
    ||| l == "franken_dancer"@
    ||| l == "harmonicagave"@
    ||| l == "harmonic_agave"@
    ||| l == "harmonicfrankendancer"@
    ||| l == "harmonic_frankendancer"@
    ||| l == "harmonic_franken_dancer"@
    ||| l == "jitolabs"@
    ||| l == "jito_labs"@
    ||| l == "jito"@
    ||| l == "rakurai"@
}

/// Each spelling is its own ASCII lower-case form.
proof fn lemma_spellings_are_lower()
    ensures
        lower("agave"@) == "agave"@,
        lower("agave_bam"@) == "agave_bam"@,
        lower("agavebam"@) == "agavebam"@,
        lower("firedancer"@) == "firedancer"@,
        lower("fire_dancer"@) == "fire_dancer"@,
        lower("frankendancer"@) == "frankendancer"@,
        lower("franken_dancer"@) == "franken_dancer"@,
        lower("harmonicagave"@) == "harmonicagave"@,
        lower("harmonic_agave"@) == "harmonic_agave"@,
        lower("harmonicfrankendancer"@) == "harmonicfrankendancer"@,
        lower("harmonic_frankendancer"@) == "harmonic_frankendancer"@,
        lower("harmonic_franken_dancer"@) == "harmonic_franken_dancer"@,
        lower("jitolabs"@) == "jitolabs"@,
        lower("jito_labs"@) == "jito_labs"@,
        lower("jito"@) == "jito"@,
        lower("rakurai"@) == "rakurai"@,
{
    reveal_strlit("agave");
    reveal_strlit("agave_bam");
    reveal_strlit("agavebam");
    reveal_strlit("firedancer");
    reveal_strlit("fire_dancer");
    reveal_strlit("frankendancer");
    reveal_strlit("franken_dancer");
    reveal_strlit("harmonicagave");
    reveal_strlit("harmonic_agave");
    reveal_strlit("harmonicfrankendancer");
    reveal_strlit("harmonic_frankendancer");
    reveal_strlit("harmonic_franken_dancer");
    reveal_strlit("jitolabs");
    reveal_strlit("jito_labs");
    reveal_strlit("jito");
    reveal_strlit("rakurai");
    assert(lower("agave"@) =~= "agave"@);
    assert(lower("agave_bam"@) =~= "agave_bam"@);
    assert(lower("agavebam"@) =~= "agavebam"@);
    assert(lower("firedancer"@) =~= "firedancer"@);
    assert(lower("fire_dancer"@) =~= "fire_dancer"@);
    assert(lower("frankendancer"@) =~= "frankendancer"@);
    assert(lower("franken_dancer"@) =~= "franken_dancer"@);
    assert(lower("harmonicagave"@) =~= "harmonicagave"@);
    assert(lower("harmonic_agave"@) =~= "harmonic_agave"@);
    assert(lower("harmonicfrankendancer"@) =~= "harmonicfrankendancer"@);
    assert(lower("harmonic_frankendancer"@) =~= "harmonic_frankendancer"@);
    assert(lower("harmonic_franken_dancer"@) =~= "harmonic_franken_dancer"@);
    assert(lower("jitolabs"@) =~= "jitolabs"@);
    assert(lower("jito_labs"@) =~= "jito_labs"@);
    assert(lower("jito"@) =~= "jito"@);
    assert(lower("rakurai"@) =~= "rakurai"@);
}

/// Which client type each spelling names, once the text is trimmed and
/// ASCII-lower-cased; a text whose trimmed, lower-cased form is none of the
/// spellings names no known client type and is kept, trimmed, in `Other`.
pub proof fn law_parse_spelling_table(s: Seq<char>)
    ensures
        lower(trim(s)) == "agave"@ ==> parse_client_type(s) == ClientTypeView::Agave,
        lower(trim(s)) == "agave_bam"@ ==> parse_client_type(s) == ClientTypeView::AgaveBam,
        lower(trim(s)) == "agavebam"@ ==> parse_client_type(s) == ClientTypeView::AgaveBam,
        lower(trim(s)) == "firedancer"@ ==> parse_client_type(s) == ClientTypeView::FireDancer,
        lower(trim(s)) == "fire_dancer"@ ==> parse_client_type(s) == ClientTypeView::FireDancer,
        lower(trim(s)) == "frankendancer"@ ==> parse_client_type(s) == ClientTypeView::FrankenDancer,
        lower(trim(s)) == "franken_dancer"@ ==> parse_client_type(s) == ClientTypeView::FrankenDancer,
        lower(trim(s)) == "harmonicagave"@ ==> parse_client_type(s) == ClientTypeView::HarmonicAgave,
        lower(trim(s)) == "harmonic_agave"@ ==> parse_client_type(s) == ClientTypeView::HarmonicAgave,
        lower(trim(s)) == "harmonicfrankendancer"@ ==> parse_client_type(s) == ClientTypeView::HarmonicFrankenDancer,
        lower(trim(s)) == "harmonic_frankendancer"@ ==> parse_client_type(s) == ClientTypeView::HarmonicFrankenDancer,
        lower(trim(s)) == "harmonic_franken_dancer"@ ==> parse_client_type(s) == ClientTypeView::HarmonicFrankenDancer,
        lower(trim(s)) == "jitolabs"@ ==> parse_client_type(s) == ClientTypeView::JitoLabs,
        lower(trim(s)) == "jito_labs"@ ==> parse_client_type(s) == ClientTypeView::JitoLabs,
        lower(trim(s)) == "jito"@ ==> parse_client_type(s) == ClientTypeView::JitoLabs,
        lower(trim(s)) == "rakurai"@ ==> parse_client_type(s) == ClientTypeView::Rakurai,
        !is_listed_spelling(lower(trim(s))) ==> parse_client_type(s) == ClientTypeView::Other(
            trim(s),
        ),
        !(parse_client_type(s) is Other) ==> is_listed_spelling(lower(trim(s))),
{
    lemma_spellings_are_lower();
    reveal_strlit("agave");
    reveal_strlit("agave_bam");
    reveal_strlit("agavebam");
    reveal_strlit("firedancer");
    reveal_strlit("fire_dancer");
    reveal_strlit("frankendancer");
    reveal_strlit("franken_dancer");
    reveal_strlit("harmonicagave");
    reveal_strlit("harmonic_agave");
    reveal_strlit("harmonicfrankendancer");
    reveal_strlit("harmonic_frankendancer");
    reveal_strlit("harmonic_franken_dancer");
    reveal_strlit("jitolabs");
    reveal_strlit("jito_labs");
    reveal_strlit("jito");
    reveal_strlit("rakurai");
    let l = lower(trim(s));
    assert(l == "jitolabs"@ ==> l[0] != "agavebam"@[0]);
    assert(l == "harmonicagave"@ ==> l[0] != "frankendancer"@[0]);
    assert(l == "harmonic_agave"@ ==> l[0] != "franken_dancer"@[0]);
    assert(l == "jito_labs"@ ==> l[0] != "agave_bam"@[0]);
}

/// Only the two Harmonic variants are Harmonic: a text whose client type is
/// Harmonic begins, trimmed and lower-cased, with "harmonic"; every other
/// variant, and every `Other`, is not Harmonic.
pub proof fn law_only_harmonic_variants_are_harmonic(s: Seq<char>)
    ensures
        is_harmonic_client(parse_client_type(s)) ==> lower(trim(s)).len() >= 8 && lower(
            trim(s),
        ).subrange(0, 8) == "harmonic"@,
        is_harmonic_client(ClientTypeView::HarmonicAgave),
        is_harmonic_client(ClientTypeView::HarmonicFrankenDancer),
        !is_harmonic_client(ClientTypeView::Agave),
        !is_harmonic_client(ClientTypeView::AgaveBam),
        !is_harmonic_client(ClientTypeView::FireDancer),
        !is_harmonic_client(ClientTypeView::FrankenDancer),
        !is_harmonic_client(ClientTypeView::JitoLabs),
        !is_harmonic_client(ClientTypeView::Rakurai),
        forall|t: Seq<char>| !#[trigger] is_harmonic_client(ClientTypeView::Other(t)),
{
    law_parse_spelling_table(s);
    reveal_strlit("harmonic");
    reveal_strlit("agave");
    reveal_strlit("agave_bam");
    reveal_strlit("agavebam");
    reveal_strlit("firedancer");
    reveal_strlit("fire_dancer");
    reveal_strlit("frankendancer");
    reveal_strlit("franken_dancer");
    reveal_strlit("harmonicagave");
    reveal_strlit("harmonic_agave");
    reveal_strlit("harmonicfrankendancer");
    reveal_strlit("harmonic_frankendancer");
    reveal_strlit("harmonic_franken_dancer");
    reveal_strlit("jitolabs");
    reveal_strlit("jito_labs");
    reveal_strlit("jito");
    reveal_strlit("rakurai");
    let l = lower(trim(s));
    if is_harmonic_client(parse_client_type(s)) {
        if l == "harmonicagave"@ {
            assert(l.subrange(0, 8) =~= "harmonic"@);
        } else if l == "harmonic_agave"@ {
            assert(l.subrange(0, 8) =~= "harmonic"@);
        } else if l == "harmonicfrankendancer"@ {
            assert(l.subrange(0, 8) =~= "harmonic"@);
        } else if l == "harmonic_frankendancer"@ {
            assert(l.subrange(0, 8) =~= "harmonic"@);
        } else if l == "harmonic_franken_dancer"@ {
            assert(l.subrange(0, 8) =~= "harmonic"@);
        }
    }
}

/// The display text of a known client type names that client type again.
pub proof fn law_display_then_parse(c: ClientTypeView)
    requires
        !(c is Other),
    ensures
        parse_client_type(display_text(c)) == c,
{
    reveal_strlit("Agave");
    reveal_strlit("AgaveBam");
    reveal_strlit("FireDancer");
    reveal_strlit("FrankenDancer");
    reveal_strlit("HarmonicAgave");
    reveal_strlit("HarmonicFrankenDancer");
    reveal_strlit("JitoLabs");
    reveal_strlit("Rakurai");
    reveal_strlit("agave");
    reveal_strlit("agave_bam");
    reveal_strlit("agavebam");
    reveal_strlit("firedancer");
    reveal_strlit("fire_dancer");
    reveal_strlit("frankendancer");
    reveal_strlit("franken_dancer");
    reveal_strlit("harmonicagave");
    reveal_strlit("harmonic_agave");
    reveal_strlit("harmonicfrankendancer");
    reveal_strlit("harmonic_frankendancer");
    reveal_strlit("harmonic_franken_dancer");
    reveal_strlit("jitolabs");
    reveal_strlit("jito_labs");
    reveal_strlit("jito");
    reveal_strlit("rakurai");
    let t = display_text(c);
    assert(trim(t) == t);
    let l = lower(t);
    match c {
        ClientTypeView::Agave => {
            assert(l =~= lower("agave"@));
        },
        ClientTypeView::AgaveBam => {
            assert(l =~= lower("agavebam"@));
        },
        ClientTypeView::FireDancer => {
            assert(l =~= lower("firedancer"@));
        },
        ClientTypeView::FrankenDancer => {
            assert(l =~= lower("frankendancer"@));
        },
        ClientTypeView::HarmonicAgave => {
            assert(l =~= lower("harmonicagave"@));
            assert(l[0] != lower("frankendancer"@)[0]);
        },
        ClientTypeView::HarmonicFrankenDancer => {
            assert(l =~= lower("harmonicfrankendancer"@));
        },
        ClientTypeView::JitoLabs => {
            assert(l =~= lower("jitolabs"@));
            assert(l[0] != lower("agavebam"@)[0]);
        },
        ClientTypeView::Rakurai => {
            assert(l =~= lower("rakurai"@));
        },
        ClientTypeView::Other(_) => {},
    }
}

/// `Arc<str>::from(&str)`: a shared copy of the text.
#[verifier::external_body]
fn arc_from_str(s: &str) -> (r: Arc<str>)
    ensures
        (*r)@ == s@,
{
    Arc::from(s)
}

/// `<Arc<str> as AsRef<str>>::as_ref`: the shared text.
#[verifier::external_body]
fn arc_as_str(s: &Arc<str>) -> (r: &str)
    ensures
        r@ == (**s)@,
{
    s.as_ref()
}

impl ClientType {
    /// Whether this is a Harmonic node.
    pub fn is_harmonic(&self) -> (r: bool)
        ensures
            r == is_harmonic_client(self@),
    {
        matches!(self, ClientType::HarmonicAgave | ClientType::HarmonicFrankenDancer)
    }

    /// The client type that `s` names, after trimming the white space around
    /// it, compared without regard to ASCII case.
    pub fn parse(s: &str) -> (r: ClientType)
        ensures
            r@ == parse_client_type(s@),
    {
        let v = chars_of(s);
        let (lo, hi) = trim_bounds(&v);
        if eq_ignore_ascii_case_at(&v, lo, hi, "agave") {
            ClientType::Agave
        } else if eq_ignore_ascii_case_at(&v, lo, hi, "agave_bam") || eq_ignore_ascii_case_at(
            &v,
            lo,
            hi,
            "agavebam",
        ) {
            ClientType::AgaveBam
        } else if eq_ignore_ascii_case_at(&v, lo, hi, "firedancer") || eq_ignore_ascii_case_at(
            &v,
            lo,
            hi,
            "fire_dancer",
        ) {
            ClientType::FireDancer
        } else if eq_ignore_ascii_case_at(&v, lo, hi, "frankendancer")
            || eq_ignore_ascii_case_at(&v, lo, hi, "franken_dancer") {
            ClientType::FrankenDancer
        } else if eq_ignore_ascii_case_at(&v, lo, hi, "harmonicagave")
            || eq_ignore_ascii_case_at(&v, lo, hi, "harmonic_agave") {
            ClientType::HarmonicAgave
        } else if eq_ignore_ascii_case_at(&v, lo, hi, "harmonicfrankendancer")
            || eq_ignore_ascii_case_at(&v, lo, hi, "harmonic_frankendancer")
            || eq_ignore_ascii_case_at(&v, lo, hi, "harmonic_franken_dancer") {
            ClientType::HarmonicFrankenDancer
        } else if eq_ignore_ascii_case_at(&v, lo, hi, "jitolabs") || eq_ignore_ascii_case_at(
            &v,
            lo,
            hi,
            "jito_labs",
        ) || eq_ignore_ascii_case_at(&v, lo, hi, "jito") {
            ClientType::JitoLabs
        } else if eq_ignore_ascii_case_at(&v, lo, hi, "rakurai") {
            ClientType::Rakurai
        } else {
            let trimmed = s.substring_char(lo, hi);
            ClientType::Other(arc_from_str(trimmed))
        }
    }

    /// The client type of a nullable database value: NULL is `Other("")`,
    /// a text is parsed as `parse` does.
    pub fn parse_nullable(value: Option<String>) -> (r: ClientType)
        ensures
            r@ == parse_nullable_client_type(nullable_text(value)),
    {
        match &value {
            Some(s) => ClientType::parse(s.as_str()),
            None => {
                proof {
                    reveal_strlit("");
                    assert(""@ =~= Seq::<char>::empty());
                }
                let r = ClientType::Other(arc_from_str(""));
                assert(r@ == ClientTypeView::Other(Seq::empty()));
                r
            },
        }
    }

    /// The text by which this client type is displayed: the variant's name,
    /// and for `Other` its text in `Other(..)`.
    pub fn display_string(&self) -> (r: String)
        ensures
            r@ == display_text(self@),
    {
        match self {
            ClientType::Agave => String::from_str("Agave"),
            ClientType::AgaveBam => String::from_str("AgaveBam"),
            ClientType::FireDancer => String::from_str("FireDancer"),
            ClientType::FrankenDancer => String::from_str("FrankenDancer"),
            ClientType::HarmonicAgave => String::from_str("HarmonicAgave"),
            ClientType::HarmonicFrankenDancer => String::from_str("HarmonicFrankenDancer"),
            ClientType::JitoLabs => String::from_str("JitoLabs"),
            ClientType::Rakurai => String::from_str("Rakurai"),
            ClientType::Other(s) => {
                let mut r = String::from_str("Other(");
                r.append(arc_as_str(s));
                r.append(")");
                r
            },
        }
    }
}

impl<'a> From<&'a str> for ClientType {
    /// Trims the white space around `s`, then matches it without regard to ASCII case.
    fn from(s: &'a str) -> (r: ClientType)
        ensures
            r@ == parse_client_type(s@),
    {
        ClientType::parse(s)
    }
}

/// `from` is specified by the `ensures` of its impl, over the view: a spec-level
/// `from_spec` would have to build an `Arc<str>`, which no spec function can.
impl<'a> vstd::std_specs::convert::FromSpecImpl<&'a str> for ClientType {
    open spec fn obeys_from_spec() -> bool {
        false
    }

    open spec fn from_spec(v: &'a str) -> ClientType {
        choose|c: ClientType| c@ == parse_client_type(v@)
    }
}

impl From<String> for ClientType {
    fn from(s: String) -> (r: ClientType)
        ensures
            r@ == parse_client_type(s@),
    {
        ClientType::parse(s.as_str())
    }
}

impl vstd::std_specs::convert::FromSpecImpl<String> for ClientType {
    open spec fn obeys_from_spec() -> bool {
        false
    }

    open spec fn from_spec(v: String) -> ClientType {
        choose|c: ClientType| c@ == parse_client_type(v@)
    }
}

impl From<Option<String>> for ClientType {
    fn from(opt: Option<String>) -> (r: ClientType)
        ensures
            r@ == parse_nullable_client_type(nullable_text(opt)),
    {
        ClientType::parse_nullable(opt)
    }
}

impl vstd::std_specs::convert::FromSpecImpl<Option<String>> for ClientType {
    open spec fn obeys_from_spec() -> bool {
        false
    }

    open spec fn from_spec(v: Option<String>) -> ClientType {
        choose|c: ClientType| c@ == parse_nullable_client_type(nullable_text(v))
    }
}

} // verus!
