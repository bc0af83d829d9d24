use vstd::prelude::*;
use crate::pipe_id::PipeId;

verus! {

/// A word of a random name: one or more lower-case ASCII letters.
pub open spec fn is_name_word(w: Seq<char>) -> bool {
    &&& w.len() > 0
    &&& forall|i: int| 0 <= i < w.len() ==> 'a' <= #[trigger] w[i] <= 'z'
}

/// The words joined by the separator, in order.
pub open spec fn join_words(ws: Seq<Seq<char>>, sep: Seq<char>) -> Seq<char>
    decreases ws.len(),
{
    if ws.len() == 0 {
        Seq::empty()
    } else if ws.len() == 1 {
        ws[0]
    } else {
        join_words(ws.drop_last(), sep) + sep + ws.last()
    }
}

/// `name` is `words` name words joined by `sep`.
pub open spec fn is_petname(name: Seq<char>, words: nat, sep: Seq<char>) -> bool {
    exists|ws: Seq<Seq<char>>|
        ws.len() == words && (forall|i: int| 0 <= i < ws.len() ==> is_name_word(#[trigger] ws[i]))
            && name == #[trigger] join_words(ws, sep)
}

/// A join of at least one non-empty word is not empty.
pub proof fn lemma_petname_not_empty(name: Seq<char>, words: nat, sep: Seq<char>)
    requires
        words > 0,
        is_petname(name, words, sep),
    ensures
        name.len() > 0,
{
    let ws = choose|ws: Seq<Seq<char>>|
        ws.len() == words && (forall|i: int| 0 <= i < ws.len() ==> is_name_word(#[trigger] ws[i]))
            && name == #[trigger] join_words(ws, sep);
    assert(is_name_word(ws[ws.len() - 1]));
}

/// Calls `petname::petname`, which draws `words` words at random from its
/// default (medium) word lists (adverbs, then an adjective, then a noun) and
/// joins them with `separator`. Those lists are non-empty and their words are
/// lower-case ASCII letters, so for `words > 0` the name is exactly `words`
/// such words joined by `separator`; for `words == 0` the name is empty and
/// the call gives `None`. Which words are drawn is left unsaid: it is chance.
#[verifier::external_body]
fn random_petname(words: u8, separator: &str) -> (res: Option<String>)
    ensures
        words == 0 ==> res is None,
        words > 0 ==> res is Some && is_petname(res.unwrap()@, words as nat, separator@),
{
    petname::petname(words, separator)
}

/// Makes random names of a fixed number of words.
pub struct NameGenerator {
    words: u8,
    sep: String,
}

impl NameGenerator {
    /// The number of words in each name.
    pub closed spec fn word_count(&self) -> u8 {
        self.words
    }

    /// What stands between the words.
    pub closed spec fn separator(&self) -> Seq<char> {
        self.sep@
    }

    /// A generator of names of `words` words joined by `sep`.
    pub fn new(words: u8, sep: String) -> (res: NameGenerator)
        ensures
            res.word_count() == words,
            res.separator() == sep@,
    {
        NameGenerator { words, sep }
    }

    /// The generator of pipe names: two words joined by a hyphen.
    pub fn random_pipe_names() -> (res: NameGenerator)
        ensures
            res.word_count() == 2,
            res.separator() == "-"@,
    {
        NameGenerator { words: 2, sep: "-".to_string() }
    }

    /// A random name: `word_count` random words joined by the separator.
    pub fn generate(&self) -> (res: String)
        requires
            self.word_count() > 0,
        ensures
            res@.len() > 0,
            is_petname(res@, self.word_count() as nat, self.separator()),
    {
        match random_petname(self.words, self.sep.as_str()) {
            Some(name) => {
                proof {
                    lemma_petname_not_empty(name@, self.words as nat, self.sep@);
                }
                name
            },
            None => String::new(),
        }
    }

    /// A random name that `name_is_taken` does not report as taken. It draws
    /// names until one is free; it gives up (`None`) only after drawing
    /// `u64::MAX` taken names in a row, so only when `name_is_taken` has
    /// reported some name of the generated shape as taken, and never when it
    /// reports no name of that shape taken.
    pub fn generate_distinct<F: Fn(&String) -> bool>(&self, name_is_taken: F) -> (res: Option<
        String,
    >)
        requires
            self.word_count() > 0,
            forall|s: &String| name_is_taken.requires((s,)),
        ensures
            res matches Some(name) ==> name@.len() > 0 && name_is_taken.ensures((&name,), false)
                && is_petname(name@, self.word_count() as nat, self.separator()),
            res is None ==> exists|s: &String|
                #[trigger] name_is_taken.ensures((s,), true) && is_petname(
                    s@,
                    self.word_count() as nat,
                    self.separator(),
                ),
            (forall|s: &String, b: bool|
                #[trigger] name_is_taken.ensures((s,), b) && is_petname(
                    s@,
                    self.word_count() as nat,
                    self.separator(),
                ) ==> !b) ==> res is Some,
    {
        let mut attempts: u64 = 0;
        while attempts < u64::MAX
            invariant
                self.word_count() > 0,
                forall|s: &String| name_is_taken.requires((s,)),
                attempts > 0 ==> exists|s: &String|
                    #[trigger] name_is_taken.ensures((s,), true) && is_petname(
                        s@,
                        self.word_count() as nat,
                        self.separator(),
                    ),
            decreases u64::MAX - attempts,
        {
            let new = self.generate();
            let taken = name_is_taken(&new);
            if !taken {
                return Some(new);
            }
            assert(name_is_taken.ensures((&new,), true));
            attempts = attempts + 1;
        }
        None
    }
}

} // verus!

verus! {

impl PipeId {
    /// A random name of two words joined by a hyphen.
    pub fn new_random() -> (res: PipeId)
        ensures
            res@.len() > 0,
            is_petname(res@, 2, "-"@),
    {
        match random_petname(2, "-") {
            Some(name) => {
                proof {
                    lemma_petname_not_empty(name@, 2, "-"@);
                }
                PipeId(name)
            },
            None => PipeId(String::new()),
        }
    }
}

} // verus!
