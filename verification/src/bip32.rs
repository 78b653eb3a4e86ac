//! BIP-32 child numbers, derivation paths and extended public keys.
use crate::error::{SecurosysError, SecurosysErrorView};
use crate::text::{decimal, decimal_of, is_digit, lemma_decimal_value};
use bitcoin::bip32::DerivationPath;
use vstd::prelude::*;

verus! {

/// The bit that marks a child number as hardened.
pub const HARDENED_BIT: u32 = 0x8000_0000;

/// One step of a BIP-32 derivation path.
#[derive(Clone, Copy, Debug, PartialEq, Eq, Structural)]
pub enum ChildNumber {
    /// A normal child.
    Normal {
        /// Key index, below `2^31`.
        index: u32,
    },
    /// A hardened child.
    Hardened {
        /// Key index, below `2^31`.
        index: u32,
    },
}

impl ChildNumber {
    /// The index is below `2^31`.
    pub open spec fn wf(self) -> bool {
        match self {
            ChildNumber::Normal { index } => index < HARDENED_BIT,
            ChildNumber::Hardened { index } => index < HARDENED_BIT,
        }
    }

    /// The child number as one word: the index, with the top bit set where it is hardened.
    pub open spec fn word(self) -> u32 {
        match self {
            ChildNumber::Normal { index } => index,
            ChildNumber::Hardened { index } => index | HARDENED_BIT,
        }
    }

    /// The child number as text: the index in decimal, with an apostrophe where it is hardened.
    pub open spec fn text(self) -> Seq<char> {
        match self {
            ChildNumber::Normal { index } => decimal(index as nat),
            ChildNumber::Hardened { index } => decimal(index as nat) + "'"@,
        }
    }

    /// The child number as one word.
    pub fn to_word(&self) -> (word: u32)
        ensures
            word == self.word(),
    {
        match *self {
            ChildNumber::Normal { index } => index,
            ChildNumber::Hardened { index } => index | HARDENED_BIT,
        }
    }

    /// The child number that `word` stands for.
    pub open spec fn of_word(word: u32) -> ChildNumber {
        if word < HARDENED_BIT {
            ChildNumber::Normal { index: word }
        } else {
            ChildNumber::Hardened { index: (word - HARDENED_BIT) as u32 }
        }
    }

    /// The child number that `word` stands for.
    pub fn from_word(word: u32) -> (child: ChildNumber)
        ensures
            child == ChildNumber::of_word(word),
            child.wf(),
            child.word() == word,
    {
        proof {
            law_word_of_child(word);
        }
        if word < HARDENED_BIT {
            ChildNumber::Normal { index: word }
        } else {
            ChildNumber::Hardened { index: word - HARDENED_BIT }
        }
    }

    /// The child number as text.
    pub fn to_text(&self) -> (text: String)
        ensures
            text@ == self.text(),
    {
        match *self {
            ChildNumber::Normal { index } => decimal_of(index as u64),
            ChildNumber::Hardened { index } => {
                let mut text = decimal_of(index as u64);
                text.append("'");
                text
            },
        }
    }
}

/// Whether every step of `path` is well-formed.
pub open spec fn is_path(path: Seq<ChildNumber>) -> bool {
    forall|i: int| 0 <= i < path.len() ==> (#[trigger] path[i]).wf()
}

/// The steps of `path` as text, with slashes between them.
pub open spec fn path_text(path: Seq<ChildNumber>) -> Seq<char>
    decreases path.len(),
{
    if path.len() == 0 {
        Seq::empty()
    } else if path.len() == 1 {
        path[0].text()
    } else {
        path_text(path.drop_last()) + "/"@ + path.last().text()
    }
}

/// The steps of `path` as text, with slashes between them.
pub fn path_to_text(path: &[ChildNumber]) -> (text: String)
    ensures
        text@ == path_text(path@),
{
    let mut text = String::new();
    let mut i: usize = 0;
    assert(path@.take(0) =~= Seq::<ChildNumber>::empty());
    while i < path.len()
        invariant
            i <= path@.len(),
            text@ == path_text(path@.take(i as int)),
        decreases path@.len() - i,
    {
        let step = path[i].to_text();
        proof {
            assert(path@.take(i + 1).drop_last() =~= path@.take(i as int));
            assert(path@.take(i + 1).last() == path@[i as int]);
        }
        if i > 0 {
            text.append("/");
            text.append(step.as_str());
        } else {
            text = step;
        }
        i = i + 1;
    }
    assert(path@.take(i as int) =~= path@);
    text
}

/// What the BIP-32 path parser makes of a text: the child numbers as words, or
/// what its error reads.
pub uninterp spec fn bip32_path(text: Seq<char>) -> Result<Seq<u32>, Seq<char>>;

/// Calls `bitcoin::bip32::DerivationPath::from_str` and hands the child numbers
/// out as words, or the error as text. A path that was written with an
/// apostrophe behind each hardened step, with or without `m/` before it, is read
/// back as it was, and `m` is the master path. What other texts give is named,
/// not spelled out.
#[verifier::external_body]
pub(crate) fn parse_bip32_path(text: &str) -> (words: Result<Vec<u32>, String>)
    ensures
        match words {
            Ok(words) => bip32_path(text@) == Ok::<Seq<u32>, Seq<char>>(words@),
            Err(reason) => bip32_path(text@) == Err::<Seq<u32>, Seq<char>>(reason@),
        },
        forall|path: Seq<ChildNumber>|
            #![trigger path_text(path)]
            is_path(path) && (text@ == path_text(path) || text@ == "m/"@ + path_text(path)) ==> (
            words matches Ok(words) && words@ == path_words(path)),
        text@ == "m"@ ==> (words matches Ok(words) && words@.len() == 0),
{
    match text.parse::<DerivationPath>() {
        Ok(path) => Ok(path.to_u32_vec()),
        Err(e) => Err(e.to_string()),
    }
}

/// The child numbers of `path` as words.
pub open spec fn path_words(path: Seq<ChildNumber>) -> Seq<u32> {
    path.map_values(|child: ChildNumber| child.word())
}

/// The path whose child numbers are `words`.
pub open spec fn path_of_words(words: Seq<u32>) -> Seq<ChildNumber> {
    words.map_values(|word: u32| ChildNumber::of_word(word))
}

/// The path whose child numbers are the parsed words, or the parser's reason as an error.
pub fn path_from_words(parsed: Result<Vec<u32>, String>) -> (path: Result<
    Vec<ChildNumber>,
    SecurosysError,
>)
    ensures
        match parsed {
            Ok(words) => path matches Ok(path) && path@ == path_of_words(words@),
            Err(reason) => path matches Err(e) && e@ == SecurosysErrorView::DerivationPath(
                reason@,
            ),
        },
{
    match parsed {
        Ok(words) => {
            let mut path: Vec<ChildNumber> = Vec::new();
            let mut i: usize = 0;
            while i < words.len()
                invariant
                    i <= words@.len(),
                    path@.len() == i,
                    forall|j: int|
                        0 <= j < i ==> #[trigger] path@[j] == ChildNumber::of_word(words@[j]),
                decreases words@.len() - i,
            {
                path.push(ChildNumber::from_word(words[i]));
                i = i + 1;
            }
            assert(path@ =~= path_of_words(words@));
            Ok(path)
        },
        Err(reason) => Err(SecurosysError::DerivationPath(reason)),
    }
}

/// Parse a BIP-32 derivation path such as `m/48'/1'/0'/2'`. A path reads back
/// from its text, with or without `m/` before it.
pub fn parse_derivation_path(text: &str) -> (path: Result<Vec<ChildNumber>, SecurosysError>)
    ensures
        match bip32_path(text@) {
            Ok(words) => path matches Ok(path) && path@ == path_of_words(words),
            Err(reason) => path matches Err(e) && e@ == SecurosysErrorView::DerivationPath(reason),
        },
        forall|written: Seq<ChildNumber>|
            #![trigger path_text(written)]
            is_path(written) && (text@ == path_text(written) || text@ == "m/"@ + path_text(written))
                ==> (path matches Ok(path) && path@ == written),
        text@ == "m"@ ==> (path matches Ok(path) && path@.len() == 0),
{
    let parsed = parse_bip32_path(text);
    proof {
        assert forall|written: Seq<ChildNumber>|
            #![trigger path_text(written)]
            is_path(written) && (text@ == path_text(written) || text@ == "m/"@ + path_text(
                written,
            )) implies path_of_words(path_words(written)) == written by {
            law_path_of_its_words(written);
        }
    }
    path_from_words(parsed)
}

/// Every word stands for a well-formed child number, and that one's word it is.
pub proof fn law_word_of_child(word: u32)
    ensures
        ChildNumber::of_word(word).wf(),
        ChildNumber::of_word(word).word() == word,
{
    assert(word >= 0x8000_0000u32 ==> ((word - 0x8000_0000u32) as u32) | 0x8000_0000u32 == word)
        by (bit_vector);
}

/// A child number is determined by its word.
pub proof fn law_word_determines_child(a: ChildNumber, b: ChildNumber)
    requires
        a.wf(),
        b.wf(),
        a.word() == b.word(),
    ensures
        a == b,
{
    let (i, j) = (
        match a {
            ChildNumber::Normal { index } => index,
            ChildNumber::Hardened { index } => index,
        },
        match b {
            ChildNumber::Normal { index } => index,
            ChildNumber::Hardened { index } => index,
        },
    );
    assert(i < 0x8000_0000u32 && j < 0x8000_0000u32 ==> (i | 0x8000_0000u32 == j | 0x8000_0000u32
        ==> i == j) && (i | 0x8000_0000u32) >= 0x8000_0000u32 && (j | 0x8000_0000u32)
        >= 0x8000_0000u32) by (bit_vector);
}

/// A path is the one that its words stand for.
pub proof fn law_path_of_its_words(path: Seq<ChildNumber>)
    requires
        is_path(path),
    ensures
        path_of_words(path_words(path)) == path,
{
    let words = path_words(path);
    assert forall|i: int| 0 <= i < path.len() implies path_of_words(words)[i] == path[i] by {
        law_word_of_child(words[i]);
        law_word_determines_child(ChildNumber::of_word(words[i]), path[i]);
    }
    assert(path_of_words(words) =~= path);
}

/// A path is determined by its words.
pub proof fn law_words_determine_path(a: Seq<ChildNumber>, b: Seq<ChildNumber>)
    requires
        is_path(a),
        is_path(b),
        path_words(a) == path_words(b),
    ensures
        a == b,
{
    assert(a.len() == path_words(a).len() && b.len() == path_words(b).len());
    assert forall|i: int| 0 <= i < a.len() implies a[i] == b[i] by {
        assert(path_words(a)[i] == a[i].word() && path_words(b)[i] == b[i].word());
        law_word_determines_child(a[i], b[i]);
    }
    assert(a =~= b);
}

/// A child number's text is not empty and holds digits and apostrophes alone.
proof fn lemma_child_text(child: ChildNumber)
    ensures
        child.text().len() > 0,
        forall|i: int|
            0 <= i < child.text().len() ==> is_digit(#[trigger] child.text()[i])
                || child.text()[i] == '\'',
{
    reveal_strlit("'");
    match child {
        ChildNumber::Normal { index } => {
            lemma_decimal_value(index as nat);
        },
        ChildNumber::Hardened { index } => {
            lemma_decimal_value(index as nat);
            let number = decimal(index as nat);
            assert forall|i: int| 0 <= i < child.text().len() implies is_digit(
                #[trigger] child.text()[i],
            ) || child.text()[i] == '\'' by {
                if i < number.len() {
                    assert(child.text()[i] == number[i]);
                }
            }
        },
    }
}

/// A child number is determined by its text.
pub proof fn law_text_determines_child(a: ChildNumber, b: ChildNumber)
    requires
        a.text() == b.text(),
    ensures
        a == b,
{
    reveal_strlit("'");
    let (i, j) = (
        match a {
            ChildNumber::Normal { index } => index,
            ChildNumber::Hardened { index } => index,
        },
        match b {
            ChildNumber::Normal { index } => index,
            ChildNumber::Hardened { index } => index,
        },
    );
    let (x, y) = (decimal(i as nat), decimal(j as nat));
    lemma_decimal_value(i as nat);
    lemma_decimal_value(j as nat);
    assert(is_digit(x[x.len() - 1]) && is_digit(y[y.len() - 1]));
    assert((x + "'"@).last() == '\'' && (y + "'"@).last() == '\'');
    assert((x + "'"@).drop_last() =~= x);
    assert((y + "'"@).drop_last() =~= y);
}

/// The text of a path of at least one step is not empty and holds digits,
/// apostrophes and slashes alone.
pub proof fn lemma_path_text(path: Seq<ChildNumber>)
    requires
        path.len() > 0,
    ensures
        path_text(path).len() > 0,
        forall|i: int|
            0 <= i < path_text(path).len() ==> is_digit(#[trigger] path_text(path)[i])
                || path_text(path)[i] == '\'' || path_text(path)[i] == '/',
    decreases path.len(),
{
    reveal_strlit("/");
    lemma_child_text(path.last());
    if path.len() > 1 {
        let front = path_text(path.drop_last());
        let last = path.last().text();
        let text = path_text(path);
        lemma_path_text(path.drop_last());
        assert forall|i: int| 0 <= i < text.len() implies is_digit(#[trigger] text[i]) || text[i]
            == '\'' || text[i] == '/' by {
            if i < front.len() {
                assert(text[i] == front[i]);
            } else if i > front.len() {
                assert(text[i] == last[i - front.len() - 1]);
            }
        }
    }
}

/// A path is determined by its text.
pub proof fn law_text_determines_path(a: Seq<ChildNumber>, b: Seq<ChildNumber>)
    requires
        path_text(a) == path_text(b),
    ensures
        a == b,
    decreases a.len(),
{
    reveal_strlit("/");
    if a.len() == 0 || b.len() == 0 {
        if a.len() > 0 {
            lemma_path_text(a);
        }
        if b.len() > 0 {
            lemma_path_text(b);
        }
        assert(a =~= b);
    } else {
        let text = path_text(a);
        let (last_a, last_b) = (a.last().text(), b.last().text());
        lemma_child_text(a.last());
        lemma_child_text(b.last());
        if a.len() == 1 && b.len() == 1 {
            law_text_determines_child(a[0], b[0]);
            assert(a =~= b);
        } else if a.len() == 1 {
            let front_b = path_text(b.drop_last());
            assert(text[front_b.len() as int] == '/');
            assert(text == last_a);
            assert(false);
        } else if b.len() == 1 {
            let front_a = path_text(a.drop_last());
            assert(text[front_a.len() as int] == '/');
            assert(text == last_b);
            assert(false);
        } else {
            let (front_a, front_b) = (path_text(a.drop_last()), path_text(b.drop_last()));
            assert(text == front_a + "/"@ + last_a);
            assert(text == front_b + "/"@ + last_b);
            assert(text[front_a.len() as int] == '/');
            assert(text[front_b.len() as int] == '/');
            if front_a.len() < front_b.len() {
                assert(text[front_b.len() as int] == last_a[front_b.len() - front_a.len() - 1]);
            }
            if front_b.len() < front_a.len() {
                assert(text[front_a.len() as int] == last_b[front_a.len() - front_b.len() - 1]);
            }
            assert(front_a =~= text.take(front_a.len() as int));
            assert(front_b =~= text.take(front_b.len() as int));
            assert(last_a =~= text.skip(front_a.len() as int + 1));
            assert(last_b =~= text.skip(front_b.len() as int + 1));
            law_text_determines_path(a.drop_last(), b.drop_last());
            law_text_determines_child(a.last(), b.last());
            assert(a =~= a.drop_last().push(a.last()));
            assert(b =~= b.drop_last().push(b.last()));
        }
    }
}

/// An index is well-formed below 2^31, and a hardened child's word is its index
/// and 2^31 more.
pub proof fn law_word_of_an_index(index: u32)
    ensures
        (ChildNumber::Normal { index }).wf() <==> index < 0x8000_0000,
        (ChildNumber::Hardened { index }).wf() <==> index < 0x8000_0000,
        (ChildNumber::Normal { index }).word() == index,
        index < 0x8000_0000 ==> (ChildNumber::Hardened { index }).word() == index + 0x8000_0000,
        index >= 0x8000_0000 ==> (ChildNumber::Hardened { index }).word() == index,
{
    assert(index < 0x8000_0000u32 ==> (index | 0x8000_0000u32) == index + 0x8000_0000u32)
        by (bit_vector);
    assert(index >= 0x8000_0000u32 ==> (index | 0x8000_0000u32) == index) by (bit_vector);
}

/// A word below 2^31 is a normal child of that index, any other a hardened one
/// of the index that is 2^31 less.
pub proof fn law_child_of_a_word(word: u32)
    ensures
        word < 0x8000_0000 ==> ChildNumber::of_word(word) == (ChildNumber::Normal { index: word }),
        word >= 0x8000_0000 ==> (ChildNumber::of_word(word) matches ChildNumber::Hardened { index }
            && index + 0x8000_0000 == word),
{
}

/// A normal child reads as its index in decimal; a hardened one has an
/// apostrophe behind it.
pub proof fn law_text_of_an_index(index: u32)
    ensures
        (ChildNumber::Normal { index }).text() == decimal(index as nat),
        (ChildNumber::Hardened { index }).text() == decimal(index as nat).push('\''),
{
    reveal_strlit("'");
    assert(decimal(index as nat) + "'"@ =~= decimal(index as nat).push('\''));
}

/// The text of a path is that of its parts in order, with a slash between them,
/// wherever the path is parted.
pub proof fn law_path_text_joins(a: Seq<ChildNumber>, b: Seq<ChildNumber>, child: ChildNumber)
    ensures
        path_text(Seq::empty()) == Seq::<char>::empty(),
        path_text(seq![child]) == child.text(),
        a.len() > 0 && b.len() > 0 ==> path_text(a + b) == path_text(a).push('/') + path_text(b),
    decreases b.len(),
{
    reveal_strlit("/");
    if a.len() > 0 && b.len() > 0 {
        let joined = a + b;
        assert(joined.drop_last() =~= a + b.drop_last());
        assert(joined.last() == b.last());
        if b.len() == 1 {
            assert(a + b.drop_last() =~= a);
            assert(path_text(a) + "/"@ + b[0].text() =~= path_text(a).push('/') + b[0].text());
        } else {
            law_path_text_joins(a, b.drop_last(), child);
            assert(path_text(joined) =~= path_text(a).push('/') + path_text(b));
        }
    }
}

/// The words of a path stand in its order, one for each step, and so do the
/// steps of words.
pub proof fn law_words_stand_in_order(path: Seq<ChildNumber>, words: Seq<u32>, i: int)
    ensures
        path_words(path).len() == path.len(),
        0 <= i < path.len() ==> path_words(path)[i] == path[i].word(),
        path_of_words(words).len() == words.len(),
        0 <= i < words.len() ==> path_of_words(words)[i] == ChildNumber::of_word(words[i]),
        is_path(path) && 0 <= i < path.len() ==> path[i].wf(),
{
}

/// A path is well-formed if each of its steps is.
pub proof fn law_path_of_children(path: Seq<ChildNumber>)
    requires
        forall|i: int| 0 <= i < path.len() ==> (#[trigger] path[i]).wf(),
    ensures
        is_path(path),
{
}

} // verus!
