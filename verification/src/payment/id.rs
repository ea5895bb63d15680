use vstd::prelude::*;

verus! {

/// Whether `c` has the Unicode `White_Space` property, the characters that `str::trim`
/// removes from either end of a string.
pub open spec fn is_white_space(c: char) -> bool {
    ||| '\u{0009}' <= c <= '\u{000D}'
    ||| c == '\u{0020}'
    ||| c == '\u{0085}'
    ||| c == '\u{00A0}'
    ||| c == '\u{1680}'
    ||| '\u{2000}' <= c <= '\u{200A}'
    ||| c == '\u{2028}'
    ||| c == '\u{2029}'
    ||| c == '\u{202F}'
    ||| c == '\u{205F}'
    ||| c == '\u{3000}'
}

/// Whether trimming white space would change the text `s`: it starts or ends with white space.
pub open spec fn has_surrounding_white_space(s: Seq<char>) -> bool {
    s.len() > 0 && (is_white_space(s[0]) || is_white_space(s[s.len() - 1]))
}

/// `s` without its leading white space, as `str::trim_start` leaves it.
pub open spec fn trim_start(s: Seq<char>) -> Seq<char>
    decreases s.len(),
{
    if s.len() > 0 && is_white_space(s[0]) {
        trim_start(s.drop_first())
    } else {
        s
    }
}

/// `s` without its trailing white space, as `str::trim_end` leaves it.
pub open spec fn trim_end(s: Seq<char>) -> Seq<char>
    decreases s.len(),
{
    if s.len() > 0 && is_white_space(s.last()) {
        trim_end(s.drop_last())
    } else {
        s
    }
}

/// `s` without its leading and trailing white space, as `str::trim` leaves it.
pub open spec fn trimmed(s: Seq<char>) -> Seq<char> {
    trim_end(trim_start(s))
}

proof fn lemma_trim_start_shortens(s: Seq<char>)
    ensures
        trim_start(s).len() <= s.len(),
        s.len() > 0 && is_white_space(s[0]) ==> trim_start(s).len() < s.len(),
        !(s.len() > 0 && is_white_space(s[0])) ==> trim_start(s) == s,
    decreases s.len(),
{
    if s.len() > 0 && is_white_space(s[0]) {
        lemma_trim_start_shortens(s.drop_first());
    }
}

proof fn lemma_trim_end_shortens(s: Seq<char>)
    ensures
        trim_end(s).len() <= s.len(),
        s.len() > 0 && is_white_space(s.last()) ==> trim_end(s).len() < s.len(),
        !(s.len() > 0 && is_white_space(s.last())) ==> trim_end(s) == s,
    decreases s.len(),
{
    if s.len() > 0 && is_white_space(s.last()) {
        lemma_trim_end_shortens(s.drop_last());
    }
}

/// Trimming changes a text exactly when the text is non-empty and its first or its last
/// character is white space, whatever its length; this is what "surrounding white space" means.
pub proof fn lemma_trim_changes_text_iff_surrounding_white_space(s: Seq<char>)
    ensures
        trimmed(s) != s <==> (s.len() > 0 && (is_white_space(s[0]) || is_white_space(
            s[s.len() - 1],
        ))),
        has_surrounding_white_space(s) <==> trimmed(s) != s,
{
    lemma_trim_start_shortens(s);
    lemma_trim_end_shortens(trim_start(s));
}

/// Whether `s` is acceptable as a payment identifier.
pub open spec fn is_valid_payment_id(s: Seq<char>) -> bool {
    s.len() > 0 && !has_surrounding_white_space(s)
}

/// Decides whether `c` has the Unicode `White_Space` property.
pub fn is_white_space_char(c: char) -> (answer: bool)
    ensures
        answer == is_white_space(c),
{
    ('\u{0009}' <= c && c <= '\u{000D}') || c == '\u{0020}' || c == '\u{0085}' || c == '\u{00A0}'
        || c == '\u{1680}' || ('\u{2000}' <= c && c <= '\u{200A}') || c == '\u{2028}' || c
        == '\u{2029}' || c == '\u{202F}' || c == '\u{205F}' || c == '\u{3000}'
}

/// A caller-provided payment identifier: non-empty text without surrounding white space.
#[derive(Debug, PartialEq, Eq, Hash)]
pub struct PaymentId {
    value: String,
}

impl View for PaymentId {
    type V = Seq<char>;

    closed spec fn view(&self) -> Seq<char> {
        self.value@
    }
}

/// An error returned when constructing a [`PaymentId`].
#[derive(Clone, Copy, Debug, PartialEq, Eq, Hash, Structural)]
pub enum PaymentIdError {
    /// Payment identifiers must contain at least one character.
    Empty,
    /// Payment identifiers must not contain leading or trailing whitespace.
    HasSurroundingWhitespace,
}

impl PaymentIdError {
    /// The stable human-readable description of the error.
    pub open spec fn message(self) -> Seq<char> {
        match self {
            PaymentIdError::Empty => "payment id must not be empty"@,
            PaymentIdError::HasSurroundingWhitespace => "payment id must not contain surrounding whitespace"@,
        }
    }

    /// Returns the stable human-readable description of the error.
    pub fn to_string(&self) -> (text: String)
        ensures
            text@ == self.message(),
    {
        match self {
            PaymentIdError::Empty => String::from_str("payment id must not be empty"),
            PaymentIdError::HasSurroundingWhitespace => String::from_str(
                "payment id must not contain surrounding whitespace",
            ),
        }
    }
}

impl PaymentId {
    #[verifier::type_invariant]
    closed spec fn is_valid(self) -> bool {
        is_valid_payment_id(self.value@)
    }

    /// Creates a payment identifier from caller-provided text.
    ///
    /// Fails with [`PaymentIdError::Empty`] when the text is empty, and with
    /// [`PaymentIdError::HasSurroundingWhitespace`] when trimming would change it.
    pub fn new(value: &str) -> (id: Result<PaymentId, PaymentIdError>)
        ensures
            value@.len() == 0 <==> id == Err::<PaymentId, PaymentIdError>(PaymentIdError::Empty),
            has_surrounding_white_space(value@) <==> id == Err::<PaymentId, PaymentIdError>(
                PaymentIdError::HasSurroundingWhitespace,
            ),
            id is Ok <==> is_valid_payment_id(value@),
            id is Ok <==> (value@.len() > 0 && trimmed(value@) == value@),
            value@.len() > 0 && trimmed(value@) != value@ <==> id == Err::<
                PaymentId,
                PaymentIdError,
            >(PaymentIdError::HasSurroundingWhitespace),
            value@.len() > 0 && (is_white_space(value@[0]) || is_white_space(value@.last()))
                ==> id == Err::<PaymentId, PaymentIdError>(
                PaymentIdError::HasSurroundingWhitespace,
            ),
            id is Ok ==> !is_white_space(value@[0]) && !is_white_space(value@.last()),
            id matches Ok(accepted) ==> accepted@ == value@,
    {
        proof {
            lemma_trim_changes_text_iff_surrounding_white_space(value@);
        }
        if value.is_empty() {
            return Err(PaymentIdError::Empty);
        }
        let length = value.unicode_len();
        let first = value.get_char(0);
        let last = value.get_char(length - 1);
        if is_white_space_char(first) || is_white_space_char(last) {
            return Err(PaymentIdError::HasSurroundingWhitespace);
        }
        Ok(PaymentId { value: String::from_str(value) })
    }

    /// Returns the payment identifier as text.
    pub fn as_str(&self) -> (text: &str)
        ensures
            text@ == self@,
            is_valid_payment_id(text@),
    {
        proof {
            use_type_invariant(self);
        }
        self.value.as_str()
    }
}

impl Clone for PaymentId {
    fn clone(&self) -> (copy: Self)
        ensures
            copy@ == self@,
    {
        proof {
            use_type_invariant(self);
        }
        PaymentId { value: self.value.clone() }
    }
}

} // verus!
