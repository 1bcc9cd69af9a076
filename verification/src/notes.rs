//! The notes of earlier transactions, offered to complete a new one.

use crate::text::{begins_with, chars_of, starts_with, text_of, to_uppercase, uppercase_of};
use crate::transaction::Transaction;
use vstd::prelude::*;

verus! {

/// The part of the dialogue that asks for the note.
pub struct NoteWizard {}

/// The notes to choose from: every note that is not empty, once, in the
/// order of a dictionary.
pub struct NoteCompletion {
    pub options: Vec<String>,
}

/// Whether the first text comes before the second in a dictionary that
/// orders characters by their code: at the first place where they differ the
/// first text has the smaller character, or it ends there.
pub open spec fn comes_before(a: Seq<char>, b: Seq<char>) -> bool
    decreases a.len(),
{
    if b.len() == 0 {
        false
    } else if a.len() == 0 {
        true
    } else if a[0] != b[0] {
        a[0] < b[0]
    } else {
        comes_before(a.drop_first(), b.drop_first())
    }
}

/// Whether every text comes before all that follow it.
pub open spec fn strictly_sorted(texts: Seq<Seq<char>>) -> bool {
    forall|i: int, j: int|
        0 <= i < j < texts.len() ==> comes_before(#[trigger] texts[i], #[trigger] texts[j])
}

/// Whether the text is the note of the transaction.
pub open spec fn has_note(transaction: Transaction, text: Seq<char>) -> bool {
    transaction.note matches Some(n) && n@ == text
}

/// Whether the text is the note of one of the transactions, and not empty.
pub open spec fn is_note_of(transactions: Seq<Transaction>, text: Seq<char>) -> bool {
    text.len() > 0 && exists|i: int|
        0 <= i < transactions.len() && has_note(#[trigger] transactions[i], text)
}

/// The texts of the options.
pub open spec fn option_texts(options: Seq<String>) -> Seq<Seq<char>> {
    options.map_values(|o: String| o@)
}

/// No text comes before itself, and of two texts one at most comes before
/// the other.
pub proof fn comes_before_is_strict(a: Seq<char>, b: Seq<char>)
    ensures
        !comes_before(a, a),
        !(comes_before(a, b) && comes_before(b, a)),
    decreases a.len(),
{
    if a.len() > 0 {
        comes_before_is_strict(a.drop_first(), a.drop_first());
        if b.len() > 0 && a[0] == b[0] {
            comes_before_is_strict(a.drop_first(), b.drop_first());
        }
    }
}

/// A text that comes before a second comes before all that the second
/// comes before.
pub proof fn comes_before_is_transitive(a: Seq<char>, b: Seq<char>, c: Seq<char>)
    requires
        comes_before(a, b),
        comes_before(b, c),
    ensures
        comes_before(a, c),
    decreases a.len(),
{
    if a.len() > 0 && b.len() > 0 && c.len() > 0 {
        if a[0] == b[0] && b[0] == c[0] {
            comes_before_is_transitive(a.drop_first(), b.drop_first(), c.drop_first());
        }
    }
}

/// Texts that agree on their first characters are ordered as their rests.
proof fn order_skips_common_start(a: Seq<char>, b: Seq<char>, n: int)
    requires
        0 <= n <= a.len(),
        n <= b.len(),
        forall|k: int| 0 <= k < n ==> a[k] == b[k],
    ensures
        comes_before(a, b) == comes_before(a.skip(n), b.skip(n)),
        (a == b) == (a.skip(n) == b.skip(n)),
    decreases n,
{
    if n == 0 {
        assert(a.skip(0) =~= a);
        assert(b.skip(0) =~= b);
    } else {
        let x = a.drop_first();
        let y = b.drop_first();
        assert forall|k: int| 0 <= k < n - 1 implies x[k] == y[k] by {
            assert(x[k] == a[k + 1]);
            assert(y[k] == b[k + 1]);
        }
        order_skips_common_start(x, y, n - 1);
        assert(x.skip(n - 1) =~= a.skip(n));
        assert(y.skip(n - 1) =~= b.skip(n));
        assert(a[0] == b[0]);
        if x == y {
            assert(a =~= seq![a[0]] + x);
            assert(b =~= seq![b[0]] + y);
        }
        if a == b {
            assert(x =~= y);
        }
    }
}

/// How two texts stand to each other.
#[derive(Clone, Copy, Debug, PartialEq, Eq, Structural)]
pub enum Standing {
    Before,
    Same,
    After,
}

/// How the first text stands to the second in the dictionary.
pub fn standing(a: &Vec<char>, b: &Vec<char>) -> (r: Standing)
    ensures
        r == Standing::Before <==> comes_before(a@, b@),
        r == Standing::Same <==> a@ == b@,
        r == Standing::After <==> comes_before(b@, a@),
{
    let mut i: usize = 0;
    while i < a.len() && i < b.len() && a[i] == b[i]
        invariant
            i <= a.len(),
            i <= b.len(),
            forall|k: int| 0 <= k < i ==> a@[k] == b@[k],
        decreases a.len() - i,
    {
        i += 1;
    }
    proof {
        order_skips_common_start(a@, b@, i as int);
        order_skips_common_start(b@, a@, i as int);
        comes_before_is_strict(a@, b@);
        comes_before_is_strict(a@, a@);
        let x = a@.skip(i as int);
        let y = b@.skip(i as int);
        if i < a.len() {
            assert(x[0] == a@[i as int]);
        }
        if i < b.len() {
            assert(y[0] == b@[i as int]);
        }
        if i == a.len() && i == b.len() {
            assert(x =~= y);
        }
    }
    if i == a.len() {
        if i == b.len() {
            Standing::Same
        } else {
            Standing::Before
        }
    } else if i == b.len() {
        Standing::After
    } else if a[i] < b[i] {
        Standing::Before
    } else {
        Standing::After
    }
}

impl NoteCompletion {
    /// The notes of the transactions that are not empty, each once, in the
    /// order of a dictionary.
    pub fn new(transactions: &[Transaction]) -> (r: Self)
        ensures
            strictly_sorted(option_texts(r.options@)),
            forall|text: Seq<char>|
                option_texts(r.options@).contains(text) <==> is_note_of(transactions@, text),
    {
        let mut sorted: Vec<Vec<char>> = Vec::new();
        let mut i: usize = 0;
        while i < transactions.len()
            invariant
                i <= transactions.len(),
                strictly_sorted(crate::text::parts_view(sorted@)),
                forall|text: Seq<char>|
                    crate::text::parts_view(sorted@).contains(text) <==> is_note_of(
                        transactions@.take(i as int),
                        text,
                    ),
            decreases transactions.len() - i,
        {
            let ghost seen = transactions@.take(i as int);
            let ghost next = transactions@.take(i + 1);
            let ghost before = crate::text::parts_view(sorted@);
            proof {
                assert forall|text: Seq<char>|
                    is_note_of(next, text) <==> (is_note_of(seen, text) || (text.len() > 0
                        && has_note(transactions@[i as int], text))) by {
                    if is_note_of(seen, text) {
                        let k = choose|k: int|
                            0 <= k < seen.len() && has_note(#[trigger] seen[k], text);
                        assert(next[k] == seen[k]);
                    }
                    if text.len() > 0 && has_note(transactions@[i as int], text) {
                        assert(next[i as int] == transactions@[i as int]);
                    }
                    if is_note_of(next, text) {
                        let k = choose|k: int|
                            0 <= k < next.len() && has_note(#[trigger] next[k], text);
                        if k < i {
                            assert(seen[k] == next[k]);
                        }
                    }
                }
            }
            if let Some(note) = &transactions[i].note {
                let text = chars_of(note.as_str());
                if text.len() > 0 {
                    let mut place: usize = 0;
                    let mut found: bool = false;
                    while place < sorted.len()
                        invariant_except_break
                            !found,
                        invariant
                            place <= sorted.len(),
                            before == crate::text::parts_view(sorted@),
                            forall|k: int|
                                0 <= k < place ==> comes_before(
                                    #[trigger] sorted@[k]@,
                                    text@,
                                ),
                        ensures
                            place <= sorted.len(),
                            before == crate::text::parts_view(sorted@),
                            forall|k: int|
                                0 <= k < place ==> comes_before(
                                    #[trigger] sorted@[k]@,
                                    text@,
                                ),
                            found ==> place < sorted.len() && sorted@[place as int]@ == text@,
                            !found && place < sorted.len() ==> comes_before(
                                text@,
                                sorted@[place as int]@,
                            ),
                        decreases sorted.len() - place,
                    {
                        match standing(&sorted[place], &text) {
                            Standing::Before => {
                                place += 1;
                            },
                            Standing::Same => {
                                found = true;
                                break ;
                            },
                            Standing::After => {
                                break ;
                            },
                        }
                    }
                    if found {
                        proof {
                            assert(before[place as int] == text@);
                        }
                    } else {
                        proof {
                            before.insert_ensures(place as int, text@);
                            let after = before.insert(place as int, text@);
                            assert forall|a: int, b: int| 0 <= a < b < after.len() implies comes_before(
                                #[trigger] after[a],
                                #[trigger] after[b],
                            ) by {
                                let x = if a < place {
                                    a
                                } else {
                                    a - 1
                                };
                                let y = if b < place {
                                    b
                                } else {
                                    b - 1
                                };
                                if a != place && b != place {
                                    assert(after[a] == before[x]);
                                    assert(after[b] == before[y]);
                                } else if a == place {
                                    assert(after[b] == before[y]);
                                    assert(before[y] == sorted@[y]@);
                                    assert(before[place as int] == sorted@[place as int]@);
                                    if y > place {
                                        comes_before_is_transitive(
                                            text@,
                                            before[place as int],
                                            before[y],
                                        );
                                    }
                                } else {
                                    assert(after[a] == before[x]);
                                    assert(before[x] == sorted@[x]@);
                                }
                            }
                            assert forall|t: Seq<char>|
                                after.contains(t) <==> (before.contains(t) || t == text@) by {
                                if before.contains(t) {
                                    let k = choose|k: int| 0 <= k < before.len() && before[k] == t;
                                    if k < place {
                                        assert(after[k] == t);
                                    } else {
                                        assert(after[k + 1] == t);
                                    }
                                }
                                if t == text@ {
                                    assert(after[place as int] == t);
                                }
                                if after.contains(t) {
                                    let k = choose|k: int| 0 <= k < after.len() && after[k] == t;
                                    if k < place {
                                        assert(before[k] == t);
                                    } else if k > place {
                                        assert(before[k - 1] == t);
                                    }
                                }
                            }
                        }
                        sorted.insert(place, text);
                        proof {
                            assert(crate::text::parts_view(sorted@) =~= before.insert(
                                place as int,
                                text@,
                            ));
                        }
                    }
                }
            }
            i += 1;
        }
        proof {
            assert(transactions@.take(i as int) =~= transactions@);
        }
        let mut options: Vec<String> = Vec::new();
        let mut k: usize = 0;
        while k < sorted.len()
            invariant
                k <= sorted.len(),
                options.len() == k,
                forall|j: int| 0 <= j < k ==> (#[trigger] options@[j])@ == sorted@[j]@,
            decreases sorted.len() - k,
        {
            options.push(text_of(&sorted[k]));
            k += 1;
        }
        proof {
            assert(option_texts(options@) =~= crate::text::parts_view(sorted@));
        }
        NoteCompletion { options }
    }

    /// The first option that begins with what was typed, whatever the case
    /// of either.
    pub fn get(&self, input: &str) -> (r: Option<String>)
        ensures
            match r {
                Some(found) => exists|i: int|
                    0 <= i < self.options.len() && self.options@[i] == found && begins_with(
                        uppercase_of(self.options@[i]@),
                        uppercase_of(input@),
                    ) && forall|j: int|
                        0 <= j < i ==> !begins_with(
                            uppercase_of(#[trigger] self.options@[j]@),
                            uppercase_of(input@),
                        ),
                None => forall|j: int|
                    0 <= j < self.options.len() ==> !begins_with(
                        uppercase_of(#[trigger] self.options@[j]@),
                        uppercase_of(input@),
                    ),
            },
    {
        let wanted = chars_of(to_uppercase(input).as_str());
        let mut i: usize = 0;
        while i < self.options.len()
            invariant
                i <= self.options.len(),
                wanted@ == uppercase_of(input@),
                forall|j: int|
                    0 <= j < i ==> !begins_with(
                        uppercase_of(#[trigger] self.options@[j]@),
                        uppercase_of(input@),
                    ),
            decreases self.options.len() - i,
        {
            let upper = chars_of(to_uppercase(self.options[i].as_str()).as_str());
            if starts_with(&upper, &wanted) {
                return Some(self.options[i].clone());
            }
            i += 1;
        }
        None
    }
}

} // verus!
