//! Picking one item out of a list, and yes/no questions.

use vstd::prelude::*;

verus! {

/// An item that the user can pick by its key.
pub trait Pickable {
    /// The key the item is picked by.
    spec fn key_spec(&self) -> Seq<char>;

    /// The key as it is shown beside the item.
    spec fn display_key_spec(&self) -> Seq<char>;

    fn get_key(&self) -> (k: String)
        ensures
            k@ == self.key_spec(),
    ;

    fn display_key(&self) -> (k: String)
        ensures
            k@ == self.display_key_spec(),
    ;
}

/// An item with a text to show the user.
pub trait DisplayText {
    /// The text shown for the item.
    spec fn display_spec(&self) -> Seq<char>;

    fn display_text(&self) -> (s: String)
        ensures
            s@ == self.display_spec(),
    ;
}

/// The list handed to the picker: one line per item, its key, a space and its
/// text.
pub open spec fn pick_lines<T: Pickable + DisplayText>(items: Seq<T>) -> Seq<char>
    decreases items.len(),
{
    if items.len() == 0 {
        Seq::empty()
    } else {
        pick_lines(items.drop_last()) + items.last().key_spec() + seq![' ']
            + items.last().display_spec() + seq!['\n']
    }
}

/// The line of one item starts with the key it is picked by, then a space,
/// its text and a line break.
pub proof fn lemma_pick_line_of_one<T: Pickable + DisplayText>(x: T)
    ensures
        pick_lines(seq![x]) == x.key_spec() + seq![' '] + x.display_spec() + seq!['\n'],
        pick_lines(seq![x]).subrange(0, x.key_spec().len() as int) == x.key_spec(),
        pick_lines(seq![x])[x.key_spec().len() as int] == ' ',
{
    let s = seq![x];
    assert(s.drop_last() =~= Seq::<T>::empty());
    assert(pick_lines(s.drop_last()) == Seq::<char>::empty());
    let line = x.key_spec() + seq![' '] + x.display_spec() + seq!['\n'];
    assert(Seq::<char>::empty() + x.key_spec() + seq![' '] + x.display_spec() + seq!['\n'] =~= line);
    assert(line.subrange(0, x.key_spec().len() as int) =~= x.key_spec());
}

/// The list of several items is the lists of its parts, one after the other:
/// each item has a line of its own, in order.
pub proof fn lemma_pick_lines_concat<T: Pickable + DisplayText>(a: Seq<T>, b: Seq<T>)
    ensures
        pick_lines(a + b) == pick_lines(a) + pick_lines(b),
    decreases b.len(),
{
    if b.len() == 0 {
        assert(a + b =~= a);
        assert(pick_lines(b) == Seq::<char>::empty());
        assert(pick_lines(a) + pick_lines(b) =~= pick_lines(a));
    } else {
        lemma_pick_lines_concat(a, b.drop_last());
        assert((a + b).drop_last() =~= a + b.drop_last());
        assert((a + b).last() == b.last());
        let l = b.last().key_spec() + seq![' '] + b.last().display_spec() + seq!['\n'];
        assert(pick_lines(a + b) == pick_lines(a + b.drop_last()) + l);
        assert(pick_lines(b) == pick_lines(b.drop_last()) + l);
        assert(pick_lines(a) + pick_lines(b.drop_last()) + l =~= pick_lines(a) + (pick_lines(
            b.drop_last(),
        ) + l));
    }
}

/// The text that the picker offers for `items`; the line of the item at index
/// `i` is line `i`.
pub fn pick_list_text<T: Pickable + DisplayText>(items: &[T]) -> (s: String)
    ensures
        s@ == pick_lines(items@),
{
    let mut s = String::new();
    let n = items.len();
    let mut i: usize = 0;
    while i < n
        invariant
            n == items@.len(),
            i <= n,
            s@ == pick_lines(items@.subrange(0, i as int)),
        decreases n - i,
    {
        let key = items[i].get_key();
        let text = items[i].display_text();
        s.append(key.as_str());
        s.append(" ");
        s.append(text.as_str());
        s.append("\n");
        proof {
            reveal_strlit(" ");
            reveal_strlit("\n");
            assert(items@.subrange(0, i + 1).drop_last() == items@.subrange(0, i as int));
            assert(items@.subrange(0, i + 1).last() == items@[i as int]);
        }
        i = i + 1;
    }
    assert(items@.subrange(0, n as int) == items@);
    s
}

/// The index of the first item whose key is `key`.
pub fn position_of_key<T: Pickable>(items: &[T], key: &str) -> (r: Option<usize>)
    ensures
        match r {
            Some(i) => i < items@.len() && items@[i as int].key_spec() == key@ && forall|j: int|
                0 <= j < i ==> #[trigger] items@[j].key_spec() != key@,
            None => forall|j: int| 0 <= j < items@.len() ==> #[trigger] items@[j].key_spec() != key@,
        },
{
    let wanted = String::from_str(key);
    let n = items.len();
    let mut i: usize = 0;
    while i < n
        invariant
            n == items@.len(),
            i <= n,
            wanted@ == key@,
            forall|j: int| 0 <= j < i ==> #[trigger] items@[j].key_spec() != key@,
        decreases n - i,
    {
        let k = items[i].get_key();
        if k == wanted {
            return Some(i);
        }
        i = i + 1;
    }
    None
}

/// The question asked by `confirm`.
pub open spec fn confirm_question(prompt: Seq<char>) -> Seq<char> {
    prompt + " (y/N)?"@
}

/// Asks `prompt` as a yes/no question through `read_line`, which shows its
/// argument and returns the line the user typed; only the answer `y` is a yes.
pub fn confirm<F: Fn(&str) -> String>(prompt: &str, read_line: F) -> (yes: bool)
    requires
        forall|p: &str| #[trigger] read_line.requires((p,)),
    ensures
        exists|p: &str, answer: String|
            #![trigger read_line.ensures((p,), answer)]
            p@ == confirm_question(prompt@) && read_line.ensures((p,), answer) && yes == (answer@
                == "y"@),
{
    let question = String::from_str(prompt).concat(" (y/N)?");
    let q = question.as_str();
    let answer = read_line(q);
    let y = String::from_str("y");
    let yes = answer == y;
    assert(read_line.ensures((q,), answer));
    yes
}

} // verus!
