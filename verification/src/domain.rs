//! Domain value types: the validation gate through which every raw string
//! must pass before it can reach the rest of the pipeline.

use vstd::prelude::*;
use vstd::std_specs::cmp::PartialEqSpec;
use vstd::string::StrSliceExecFns;

verus! {

/// Why a raw input string was refused at the validation gate.
#[derive(Clone, Copy, Debug, PartialEq, Eq, Structural)]
pub enum ValidationError {
    /// The submitted name is blank, too long, or holds a control
    /// character or forbidden symbol.
    InvalidName,
    /// The submitted email does not match the address grammar.
    InvalidEmail,
}

/// The characters that count as whitespace when deciding whether a name is
/// blank: the Unicode `White_Space` code points.
pub open spec fn is_space(c: char) -> bool {
    c == '\u{9}' || c == '\u{a}' || c == '\u{b}' || c == '\u{c}' || c == '\u{d}' || c == ' '
        || c == '\u{85}' || c == '\u{a0}' || c == '\u{1680}' || c == '\u{2000}' || c == '\u{2001}'
        || c == '\u{2002}' || c == '\u{2003}' || c == '\u{2004}' || c == '\u{2005}'
        || c == '\u{2006}' || c == '\u{2007}' || c == '\u{2008}' || c == '\u{2009}'
        || c == '\u{200a}' || c == '\u{2028}' || c == '\u{2029}' || c == '\u{202f}'
        || c == '\u{205f}' || c == '\u{3000}'
}

/// The structural symbols that a subscriber name may not contain.
pub open spec fn is_forbidden(c: char) -> bool {
    c == '/' || c == '(' || c == ')' || c == '"' || c == '<' || c == '>' || c == '\\' || c == '{'
        || c == '}'
}

/// Every character of `s` is whitespace; in particular this holds of the
/// empty string, so a name passes the emptiness check exactly when this is
/// false of it (trimming cannot save an all-whitespace string).
pub open spec fn all_space(s: Seq<char>) -> bool {
    forall|i: int| 0 <= i < s.len() ==> is_space(s[i])
}

/// Some character of `s` is one of the forbidden structural symbols.
pub open spec fn has_forbidden_char(s: Seq<char>) -> bool {
    exists|i: int| 0 <= i < s.len() && is_forbidden(s[i])
}

/// The control characters (Unicode category `Cc`): never printable, so a
/// name may not contain one.
pub open spec fn is_control(c: char) -> bool {
    (c as u32) < 0x20 || (0x7f <= (c as u32) && (c as u32) <= 0x9f)
}

/// Some character of `s` is a control character.
pub open spec fn has_control_char(s: Seq<char>) -> bool {
    exists|i: int| 0 <= i < s.len() && is_control(s[i])
}

/// How many extended grapheme clusters `s` segments into; the unit in which
/// the name length bound is counted.
pub uninterp spec fn grapheme_count(s: Seq<char>) -> nat;

/// The most grapheme clusters a subscriber name may hold.
pub const MAX_NAME_GRAPHEMES: usize = 256;

/// A raw string is an acceptable subscriber name: not blank, within the
/// length bound, and free of control characters and forbidden symbols.
pub open spec fn valid_name(s: Seq<char>) -> bool {
    &&& !all_space(s)
    &&& grapheme_count(s) <= MAX_NAME_GRAPHEMES
    &&& !has_control_char(s)
    &&& !has_forbidden_char(s)
}

/// Relies on `unicode_segmentation::UnicodeSegmentation::graphemes` (extended
/// grapheme clusters): the segmentation depends on the characters alone.
#[verifier::external_body]
fn grapheme_units(s: &str) -> (r: usize)
    ensures
        r == grapheme_count(s@),
{
    unicode_segmentation::UnicodeSegmentation::graphemes(s, true).count()
}

/// Whether `c` is one of the Unicode `White_Space` code points.
fn char_is_space(c: char) -> (r: bool)
    ensures
        r == is_space(c),
{
    c == '\u{9}' || c == '\u{a}' || c == '\u{b}' || c == '\u{c}' || c == '\u{d}' || c == ' '
        || c == '\u{85}' || c == '\u{a0}' || c == '\u{1680}' || c == '\u{2000}' || c == '\u{2001}'
        || c == '\u{2002}' || c == '\u{2003}' || c == '\u{2004}' || c == '\u{2005}'
        || c == '\u{2006}' || c == '\u{2007}' || c == '\u{2008}' || c == '\u{2009}'
        || c == '\u{200a}' || c == '\u{2028}' || c == '\u{2029}' || c == '\u{202f}'
        || c == '\u{205f}' || c == '\u{3000}'
}

/// Whether `c` is a control character (Unicode category `Cc`).
fn char_is_control(c: char) -> (r: bool)
    ensures
        r == is_control(c),
{
    (c as u32) < 0x20 || (0x7f <= (c as u32) && (c as u32) <= 0x9f)
}

/// Whether `c` is one of the forbidden structural symbols.
fn char_is_forbidden(c: char) -> (r: bool)
    ensures
        r == is_forbidden(c),
{
    c == '/' || c == '(' || c == ')' || c == '"' || c == '<' || c == '>' || c == '\\' || c == '{'
        || c == '}'
}

/// A subscriber name that has passed validation. The inner string can only
/// be set by `parse`, so every value of this type satisfies `valid_name`.
#[derive(Debug)]
pub struct SubscriberName(String);

impl View for SubscriberName {
    type V = Seq<char>;

    closed spec fn view(&self) -> Seq<char> {
        self.0@
    }
}

impl SubscriberName {
    /// The construction-only invariant: the wrapped string is always a valid
    /// name.
    #[verifier::type_invariant]
    spec fn wf(self) -> bool {
        valid_name(self.0@)
    }

    /// Validate a raw string as a subscriber name. Succeeds exactly on valid
    /// names and returns the string unchanged inside the wrapper.
    pub fn parse(s: String) -> (r: Result<SubscriberName, ValidationError>)
        ensures
            r is Ok <==> valid_name(s@),
            r matches Ok(n) ==> n@ == s@,
            r matches Err(e) ==> e == ValidationError::InvalidName,
    {
        let st: &str = s.as_str();
        let n: usize = st.unicode_len();
        let mut i: usize = 0;
        let mut seen_ink = false;
        let mut seen_control = false;
        let mut seen_forbidden = false;
        while i < n
            invariant
                i <= n,
                n == s@.len(),
                st@ == s@,
                seen_ink <==> exists|j: int| 0 <= j < i && !is_space(s@[j]),
                seen_control <==> exists|j: int| 0 <= j < i && is_control(s@[j]),
                seen_forbidden <==> exists|j: int| 0 <= j < i && is_forbidden(s@[j]),
            decreases n - i,
        {
            let c = st.get_char(i);
            if !char_is_space(c) {
                seen_ink = true;
            }
            if char_is_control(c) {
                seen_control = true;
            }
            if char_is_forbidden(c) {
                seen_forbidden = true;
            }
            i = i + 1;
        }
        let graphemes: usize = grapheme_units(st);
        if seen_ink && !seen_control && !seen_forbidden && graphemes <= MAX_NAME_GRAPHEMES {
            Ok(SubscriberName(s))
        } else {
            Err(ValidationError::InvalidName)
        }
    }

    /// Read-only access to the validated inner string.
    pub fn as_ref(&self) -> (r: &str)
        ensures
            r@ == self@,
    {
        self.0.as_str()
    }
}

impl PartialEq for SubscriberName {
    /// Two validated names are equal exactly when they expose the same
    /// string.
    fn eq(&self, other: &Self) -> bool {
        self.0 == other.0
    }
}

impl vstd::std_specs::cmp::PartialEqSpecImpl for SubscriberName {
    open spec fn obeys_eq_spec() -> bool {
        true
    }

    open spec fn eq_spec(&self, other: &Self) -> bool {
        self@ == other@
    }
}

/// `s` has the shape of an email address with its single at sign at index
/// `i`: non-empty local part before it, non-empty domain part after it, a
/// dot somewhere in the domain part, and no whitespace anywhere.
pub open spec fn email_shape(s: Seq<char>, i: int) -> bool {
    &&& 0 < i < s.len() - 1
    &&& s[i] == '@'
    &&& forall|j: int| 0 <= j < s.len() && j != i ==> s[j] != '@'
    &&& exists|j: int| i < j < s.len() && s[j] == '.'
    &&& forall|j: int| 0 <= j < s.len() ==> !is_space(s[j])
}

/// A raw string is an acceptable subscriber email: it matches the address
/// grammar at some (necessarily unique) at-sign position.
pub open spec fn valid_email(s: Seq<char>) -> bool {
    exists|i: int| email_shape(s, i)
}

/// A subscriber email that has passed validation. The inner string can only
/// be set by `parse`, so every value of this type satisfies `valid_email`.
#[derive(Debug)]
pub struct SubscriberEmail(String);

impl View for SubscriberEmail {
    type V = Seq<char>;

    closed spec fn view(&self) -> Seq<char> {
        self.0@
    }
}

impl SubscriberEmail {
    /// The construction-only invariant: the wrapped string is always a valid
    /// email address.
    #[verifier::type_invariant]
    spec fn wf(self) -> bool {
        valid_email(self.0@)
    }

    /// Validate a raw string as a subscriber email. Succeeds exactly on
    /// valid addresses and returns the string unchanged inside the wrapper.
    pub fn parse(s: String) -> (r: Result<SubscriberEmail, ValidationError>)
        ensures
            r is Ok <==> valid_email(s@),
            r matches Ok(m) ==> m@ == s@,
            r matches Err(e) ==> e == ValidationError::InvalidEmail,
    {
        let st: &str = s.as_str();
        let n: usize = st.unicode_len();
        let mut i: usize = 0;
        let mut seen_at = false;
        let mut at_idx: usize = 0;
        let mut extra_at = false;
        let mut dot_after = false;
        let mut seen_space = false;
        while i < n
            invariant
                i <= n,
                n == s@.len(),
                st@ == s@,
                !seen_at ==> forall|j: int| 0 <= j < i ==> s@[j] != '@',
                !seen_at ==> !extra_at && !dot_after && at_idx == 0,
                seen_at ==> at_idx < i && s@[at_idx as int] == '@' && (forall|j: int|
                    0 <= j < at_idx ==> s@[j] != '@'),
                seen_at && !extra_at ==> forall|j: int| at_idx < j < i ==> s@[j] != '@',
                extra_at ==> exists|j: int| at_idx < j < i && s@[j] == '@',
                dot_after <==> (seen_at && exists|j: int| at_idx < j < i && s@[j] == '.'),
                seen_space <==> exists|j: int| 0 <= j < i && is_space(s@[j]),
            decreases n - i,
        {
            let c = st.get_char(i);
            if c == '@' {
                if seen_at {
                    extra_at = true;
                } else {
                    seen_at = true;
                    at_idx = i;
                }
            }
            if c == '.' && seen_at {
                dot_after = true;
            }
            if char_is_space(c) {
                seen_space = true;
            }
            i = i + 1;
        }
        let ok = seen_at && !extra_at && at_idx >= 1 && at_idx + 1 < n && dot_after
            && !seen_space;
        proof {
            if ok {
                assert(email_shape(s@, at_idx as int));
            }
            if valid_email(s@) {
                let k = choose|k: int| email_shape(s@, k);
                assert(s@[k] == '@');
                assert(seen_at);
                assert(at_idx == k);
                assert(ok);
            }
        }
        if ok {
            Ok(SubscriberEmail(s))
        } else {
            Err(ValidationError::InvalidEmail)
        }
    }

    /// Read-only access to the validated inner string.
    pub fn as_ref(&self) -> (r: &str)
        ensures
            r@ == self@,
    {
        self.0.as_str()
    }
}

impl PartialEq for SubscriberEmail {
    /// Two validated emails are equal exactly when they expose the same
    /// string.
    fn eq(&self, other: &Self) -> bool {
        self.0 == other.0
    }
}

impl vstd::std_specs::cmp::PartialEqSpecImpl for SubscriberEmail {
    open spec fn obeys_eq_spec() -> bool {
        true
    }

    open spec fn eq_spec(&self, other: &Self) -> bool {
        self@ == other@
    }
}

/// The subscription intent assembled from two already-validated components.
/// Both fields passed their validation gate, so no partially valid aggregate
/// can exist.
#[derive(Debug)]
pub struct NewSubscriber {
    pub email: SubscriberEmail,
    pub name: SubscriberName,
}

/// Law: a blank (empty or all-whitespace), overlong, or forbidden-symbol
/// string is never a valid subscriber name.
pub proof fn lemma_invalid_name_rejected(s: Seq<char>)
    requires
        s.len() == 0 || all_space(s) || grapheme_count(s) > MAX_NAME_GRAPHEMES
            || has_forbidden_char(s),
    ensures
        !valid_name(s),
{
}

/// Law: a string with no at sign, with no dot after its at sign, or with any
/// whitespace in it is never a valid subscriber email.
pub proof fn lemma_invalid_email_rejected(s: Seq<char>)
    requires
        (forall|i: int| 0 <= i < s.len() ==> s[i] != '@') || (forall|i: int, j: int|
            0 <= i < j < s.len() && s[i] == '@' ==> s[j] != '.') || (exists|i: int|
            0 <= i < s.len() && is_space(s[i])),
    ensures
        !valid_email(s),
{
    if valid_email(s) {
        let k = choose|k: int| email_shape(s, k);
        assert(s[k] == '@');
        let d = choose|j: int| k < j < s.len() && s[j] == '.';
        assert(s[d] == '.');
        if exists|i: int| 0 <= i < s.len() && is_space(s[i]) {
            let w = choose|i: int| 0 <= i < s.len() && is_space(s[i]);
            assert(!is_space(s[w]));
        }
    }
}

/// Law: validation is idempotent — any two accepted names that arose from
/// the same raw string expose the same validated string, and the equality
/// operator agrees.
pub proof fn lemma_name_validation_idempotent(a: &SubscriberName, b: &SubscriberName, s: Seq<char>)
    requires
        a@ == s,
        b@ == s,
    ensures
        a@ == b@,
        a.eq_spec(b),
{
}

/// Law: validation is idempotent — any two accepted emails that arose from
/// the same raw string expose the same validated string, and the equality
/// operator agrees.
pub proof fn lemma_email_validation_idempotent(
    a: &SubscriberEmail,
    b: &SubscriberEmail,
    s: Seq<char>,
)
    requires
        a@ == s,
        b@ == s,
    ensures
        a@ == b@,
        a.eq_spec(b),
{
}

} // verus!
