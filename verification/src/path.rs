//! Virtual paths inside a shared directory.
//!
//! A path is an ordered sequence of components. Its textual form separates
//! the components by `/`; the textual form that a Windows peer sends may use
//! `\` as well. No component is ever empty or holds a separator, and `.` and
//! `..` are ordinary components: nothing here resolves them.

use vstd::prelude::*;
use vstd::string::*;

verus! {

/// The textual syntax that a path string is written in.
#[derive(Copy, Clone, PartialEq, Eq, Debug, Structural)]
pub enum PathSyntax {
    /// Components are separated by `/`.
    Unix,
    /// Components are separated by `\` or by `/`.
    Windows,
}

/// Whether `c` separates components in `syntax`.
pub open spec fn is_separator(c: char, syntax: PathSyntax) -> bool {
    c == '/' || (syntax == PathSyntax::Windows && c == '\\')
}

/// The number of characters of `s` that stand before its first separator:
/// all of them, if `s` holds no separator.
pub open spec fn segment_len(s: Seq<char>, syntax: PathSyntax) -> nat
    decreases s.len(),
{
    if s.len() == 0 || is_separator(s[0], syntax) {
        0
    } else {
        1 + segment_len(s.skip(1), syntax)
    }
}

/// The components of the path text `s`: its maximal runs of characters that
/// are no separators, from left to right. Leading, trailing and repeated
/// separators yield no component.
pub open spec fn split_path(s: Seq<char>, syntax: PathSyntax) -> Seq<Seq<char>>
    decreases s.len(),
{
    if s.len() == 0 {
        Seq::empty()
    } else if is_separator(s[0], syntax) {
        split_path(s.skip(1), syntax)
    } else {
        let n = segment_len(s, syntax);
        proof {
            lemma_segment_len_bounds(s, syntax);
        }
        seq![s.take(n as int)] + split_path(s.skip(n as int), syntax)
    }
}

/// Whether `c` can be a component of a path: it is not empty and holds no `/`.
pub open spec fn is_component(c: Seq<char>) -> bool {
    c.len() > 0 && forall|i: int| 0 <= i < c.len() ==> c[i] != '/'
}

/// Whether every element of `components` can be a component of a path.
pub open spec fn well_formed(components: Seq<Seq<char>>) -> bool {
    forall|i: int| 0 <= i < components.len() ==> is_component(#[trigger] components[i])
}

/// The textual form of a path: each component with a `/` before it, and a
/// single `/` for the path without components.
pub open spec fn path_text(components: Seq<Seq<char>>) -> Seq<char> {
    if components.len() == 0 {
        seq!['/']
    } else {
        joined(components)
    }
}

/// Each component of `components` with a `/` before it, in order.
pub open spec fn joined(components: Seq<Seq<char>>) -> Seq<char>
    decreases components.len(),
{
    if components.len() == 0 {
        Seq::empty()
    } else {
        seq!['/'] + components[0] + joined(components.skip(1))
    }
}

/// Whether no element of `components` is empty or holds a separator of
/// `syntax`.
pub open spec fn separator_free(components: Seq<Seq<char>>, syntax: PathSyntax) -> bool {
    forall|i: int|
        0 <= i < components.len() ==> (#[trigger] components[i]).len() > 0 && forall|j: int|
            0 <= j < components[i].len() ==> !is_separator(#[trigger] components[i][j], syntax)
}

/// A segment is as long as the text at most, holds no separator, and ends
/// at a separator or at the end of the text.
pub proof fn lemma_segment_len_bounds(s: Seq<char>, syntax: PathSyntax)
    ensures
        segment_len(s, syntax) <= s.len(),
        s.len() > 0 && !is_separator(s[0], syntax) ==> segment_len(s, syntax) >= 1,
        forall|i: int| 0 <= i < segment_len(s, syntax) ==> !is_separator(s[i], syntax),
        segment_len(s, syntax) < s.len() ==> is_separator(
            s[segment_len(s, syntax) as int],
            syntax,
        ),
    decreases s.len(),
{
    if s.len() == 0 || is_separator(s[0], syntax) {
    } else {
        let t = s.skip(1);
        lemma_segment_len_bounds(t, syntax);
        assert forall|i: int| 0 <= i < segment_len(s, syntax) implies !is_separator(
            s[i],
            syntax,
        ) by {
            if i > 0 {
                assert(s[i] == t[i - 1]);
            }
        }
        if segment_len(s, syntax) < s.len() {
            assert(s[segment_len(s, syntax) as int] == t[segment_len(t, syntax) as int]);
        }
    }
}

/// A text whose first `k` characters are no separators, and which ends or
/// has a separator right after them, has a first segment of length `k`.
pub proof fn lemma_segment_len_is(s: Seq<char>, syntax: PathSyntax, k: int)
    requires
        0 <= k <= s.len(),
        forall|i: int| 0 <= i < k ==> !is_separator(s[i], syntax),
        k < s.len() ==> is_separator(s[k], syntax),
    ensures
        segment_len(s, syntax) == k,
    decreases s.len(),
{
    if k > 0 {
        let t = s.skip(1);
        assert forall|i: int| 0 <= i < k - 1 implies !is_separator(t[i], syntax) by {
            assert(t[i] == s[i + 1]);
        }
        lemma_segment_len_is(t, syntax, k - 1);
    }
}

/// Splitting never yields an empty component or one that holds a separator,
/// so reading the textual form of what was split gives the same components.
pub proof fn lemma_split_path_well_formed(s: Seq<char>, syntax: PathSyntax)
    ensures
        well_formed(split_path(s, syntax)),
        separator_free(split_path(s, syntax), syntax),
        split_path(path_text(split_path(s, syntax)), syntax) == split_path(s, syntax),
    decreases s.len(),
{
    if s.len() == 0 {
    } else if is_separator(s[0], syntax) {
        lemma_split_path_well_formed(s.skip(1), syntax);
    } else {
        let n = segment_len(s, syntax);
        lemma_segment_len_bounds(s, syntax);
        let rest = split_path(s.skip(n as int), syntax);
        lemma_split_path_well_formed(s.skip(n as int), syntax);
        let all = split_path(s, syntax);
        assert(all == seq![s.take(n as int)] + rest);
        assert forall|i: int| 0 <= i < all.len() implies is_component(#[trigger] all[i])
            && all[i].len() > 0 && forall|j: int|
            0 <= j < all[i].len() ==> !is_separator(#[trigger] all[i][j], syntax) by {
            if i > 0 {
                assert(all[i] == rest[i - 1]);
            }
        }
    }
    lemma_path_text_round_trip(split_path(s, syntax), syntax);
}

/// A text that starts with a segment of `k > 0` characters splits into that
/// segment and the components of what follows it.
pub proof fn lemma_split_path_segment(s: Seq<char>, syntax: PathSyntax, k: int)
    requires
        0 < k <= s.len(),
        forall|i: int| 0 <= i < k ==> !is_separator(s[i], syntax),
        k < s.len() ==> is_separator(s[k], syntax),
    ensures
        split_path(s, syntax) == seq![s.take(k)] + split_path(s.skip(k), syntax),
{
    lemma_segment_len_is(s, syntax, k);
}

/// Joining one more component appends a `/` and that component.
pub proof fn lemma_joined_push(components: Seq<Seq<char>>, component: Seq<char>)
    ensures
        joined(components.push(component)) == joined(components) + seq!['/'] + component,
    decreases components.len(),
{
    let all = components.push(component);
    if components.len() == 0 {
        assert(all.skip(1) =~= Seq::<Seq<char>>::empty());
        assert(joined(all.skip(1)) =~= Seq::<char>::empty());
        assert(joined(all) =~= seq!['/'] + component);
        assert(joined(components) + seq!['/'] + component =~= seq!['/'] + component);
    } else {
        lemma_joined_push(components.skip(1), component);
        assert(all.skip(1) =~= components.skip(1).push(component));
        assert(all[0] == components[0]);
        assert(joined(all) =~= joined(components) + seq!['/'] + component);
    }
}

/// Reading the textual form of a path gives the path back: splitting the
/// text of components that are not empty and hold no separator of `syntax`
/// yields exactly those components.
pub proof fn lemma_path_text_round_trip(components: Seq<Seq<char>>, syntax: PathSyntax)
    requires
        separator_free(components, syntax),
    ensures
        split_path(path_text(components), syntax) == components,
        split_path(joined(components), syntax) == components,
    decreases components.len(),
{
    if components.len() == 0 {
        let slash = seq!['/'];
        assert(slash.skip(1) =~= Seq::<char>::empty());
        assert(is_separator(slash[0], syntax));
        assert(split_path(slash.skip(1), syntax) =~= Seq::<Seq<char>>::empty());
        assert(split_path(slash, syntax) =~= components);
        assert(split_path(joined(components), syntax) =~= components);
    } else {
        let head = components[0];
        let tail = components.skip(1);
        assert forall|i: int| 0 <= i < tail.len() implies (#[trigger] tail[i]).len() > 0
            && forall|j: int|
            0 <= j < tail[i].len() ==> !is_separator(#[trigger] tail[i][j], syntax) by {
            assert(tail[i] == components[i + 1]);
        }
        lemma_path_text_round_trip(tail, syntax);
        let text = joined(components);
        let body = head + joined(tail);
        assert(text == seq!['/'] + head + joined(tail));
        assert(is_separator(text[0], syntax));
        assert(text.skip(1) =~= body);
        let k = head.len() as int;
        assert(head.len() > 0);
        assert forall|i: int| 0 <= i < k implies !is_separator(body[i], syntax) by {
            assert(body[i] == head[i]);
        }
        if k < body.len() {
            assert(tail.len() > 0);
            assert(body[k] == joined(tail)[0]);
            assert(joined(tail)[0] == '/');
        }
        lemma_split_path_segment(body, syntax, k);
        assert(body.take(k) =~= head);
        assert(body.skip(k) =~= joined(tail));
        assert(split_path(text, syntax) =~= components);
    }
}

/// A path.
///
/// The components are kept apart, so a path is independent of the syntax it
/// was written in. Every value holds components only: none is empty and none
/// holds a `/`.
#[derive(Debug)]
pub struct UnixPath {
    components: Vec<String>,
}

impl View for UnixPath {
    type V = Seq<Seq<char>>;

    /// The components, first to last.
    closed spec fn view(&self) -> Seq<Seq<char>> {
        Seq::new(self.components@.len(), |i: int| self.components@[i]@)
    }
}

/// Whether `c` separates components in `syntax`.
fn separates(c: char, syntax: PathSyntax) -> (sep: bool)
    ensures
        sep == is_separator(c, syntax),
{
    match syntax {
        PathSyntax::Unix => c == '/',
        PathSyntax::Windows => c == '/' || c == '\\',
    }
}

impl UnixPath {
    #[verifier::type_invariant]
    spec fn holds_components(&self) -> bool {
        well_formed(self@)
    }

    /// Reads a path from its text in `syntax`, copying every component.
    pub fn parse(path: &str, syntax: PathSyntax) -> (parsed: UnixPath)
        ensures
            parsed@ == split_path(path@, syntax),
            well_formed(parsed@),
    {
        let n = path.unicode_len();
        let mut components: Vec<String> = Vec::new();
        let mut start: usize = 0;
        let mut i: usize = 0;
        let ghost text = path@;
        let ghost done: Seq<Seq<char>> = Seq::empty();
        proof {
            assert(text.skip(0) =~= text);
            assert(done + split_path(text, syntax) =~= split_path(text, syntax));
        }
        while i < n
            invariant
                n == text.len(),
                text == path@,
                start <= i <= n,
                forall|j: int| start <= j < i ==> !is_separator(text[j], syntax),
                done.len() == components@.len(),
                forall|j: int| 0 <= j < done.len() ==> done[j] == #[trigger] components@[j]@,
                split_path(text, syntax) == done + split_path(text.skip(start as int), syntax),
            decreases n - i,
        {
            let c = path.get_char(i);
            if separates(c, syntax) {
                let ghost rest = text.skip(start as int);
                if start < i {
                    let piece = path.substring_char(start, i).to_owned();
                    proof {
                        let k = i - start;
                        assert forall|j: int| 0 <= j < k implies !is_separator(rest[j], syntax) by {
                            assert(rest[j] == text[start + j]);
                        }
                        assert(rest[k] == text[i as int]);
                        lemma_split_path_segment(rest, syntax, k);
                        assert(rest.take(k) =~= text.subrange(start as int, i as int));
                        assert(rest.skip(k) =~= text.skip(i as int));
                        assert(text.skip(i as int).skip(1) =~= text.skip(i + 1));
                        assert(text.skip(i as int)[0] == text[i as int]);
                        let after = split_path(text.skip(i + 1), syntax);
                        assert(done + (seq![piece@] + after) =~= done.push(piece@) + after);
                        done = done.push(piece@);
                    }
                    components.push(piece);
                } else {
                    proof {
                        assert(rest[0] == text[i as int]);
                        assert(rest.skip(1) =~= text.skip(i + 1));
                    }
                }
                start = i + 1;
            }
            i = i + 1;
        }
        if start < n {
            let piece = path.substring_char(start, n).to_owned();
            proof {
                let rest = text.skip(start as int);
                let k = n - start;
                assert forall|j: int| 0 <= j < k implies !is_separator(rest[j], syntax) by {
                    assert(rest[j] == text[start + j]);
                }
                lemma_split_path_segment(rest, syntax, k);
                assert(rest.take(k) =~= text.subrange(start as int, n as int));
                assert(rest.skip(k).len() == 0);
                assert(done + (seq![piece@] + Seq::<Seq<char>>::empty()) =~= done.push(piece@));
                done = done.push(piece@);
            }
            components.push(piece);
        } else {
            proof {
                assert(text.skip(start as int).len() == 0);
                assert(done + Seq::<Seq<char>>::empty() =~= done);
            }
        }
        proof {
            assert(Seq::new(components@.len(), |j: int| components@[j]@) =~= done);
            lemma_split_path_well_formed(text, syntax);
        }
        UnixPath { components }
    }

    /// Reads a path from its text, whose components `/` separates.
    pub fn new(path: &str) -> (parsed: UnixPath)
        ensures
            parsed@ == split_path(path@, PathSyntax::Unix),
            well_formed(parsed@),
    {
        UnixPath::parse(path, PathSyntax::Unix)
    }

    /// Reads a path from the text that a Windows peer sent, in which `\`
    /// separates components as `/` does.
    pub fn from_windows(path: &str) -> (parsed: UnixPath)
        ensures
            parsed@ == split_path(path@, PathSyntax::Windows),
            well_formed(parsed@),
    {
        UnixPath::parse(path, PathSyntax::Windows)
    }

    /// The number of components.
    pub fn len(&self) -> (n: usize)
        ensures
            n == self@.len(),
    {
        self.components.len()
    }

    /// Whether the path has no component.
    pub fn is_empty(&self) -> (empty: bool)
        ensures
            empty == (self@.len() == 0),
    {
        self.components.len() == 0
    }

    /// The component at `index`, counted from 0, if the path has that many.
    pub fn get(&self, index: usize) -> (component: Option<&str>)
        ensures
            component is Some <==> index < self@.len(),
            component matches Some(c) ==> c@ == self@[index as int] && is_component(c@),
    {
        proof {
            use_type_invariant(self);
        }
        if index < self.components.len() {
            Some(self.components[index].as_str())
        } else {
            None
        }
    }

    /// The textual form: each component with a `/` before it, and `/` alone
    /// for the path without components.
    pub fn to_text(&self) -> (text: String)
        ensures
            text@ == path_text(self@),
    {
        let n = self.components.len();
        if n == 0 {
            proof {
                reveal_strlit("/");
                assert("/"@ =~= seq!['/']);
            }
            return String::from_str("/");
        }
        let mut text = String::new();
        let mut i: usize = 0;
        while i < n
            invariant
                n == self.components@.len(),
                i <= n,
                text@ == joined(self@.take(i as int)),
            decreases n - i,
        {
            proof {
                reveal_strlit("/");
                assert("/"@ =~= seq!['/']);
                lemma_joined_push(self@.take(i as int), self@[i as int]);
                assert(self@.take(i as int).push(self@[i as int]) =~= self@.take(i + 1));
            }
            text.append("/");
            text.append(self.components[i].as_str());
            i = i + 1;
        }
        proof {
            assert(self@.take(n as int) =~= self@);
        }
        text
    }

    /// The final component, or `None` for the path without components.
    pub fn last(&self) -> (component: Option<&str>)
        ensures
            component is Some <==> self@.len() > 0,
            component matches Some(c) ==> c@ == self@.last() && is_component(c@),
    {
        proof {
            use_type_invariant(self);
        }
        let n = self.components.len();
        if n == 0 {
            None
        } else {
            Some(self.components[n - 1].as_str())
        }
    }
}

impl Clone for UnixPath {
    /// A copy with the same components.
    fn clone(&self) -> (copy: UnixPath)
        ensures
            copy@ == self@,
    {
        proof {
            use_type_invariant(self);
        }
        let mut components: Vec<String> = Vec::new();
        let mut i: usize = 0;
        while i < self.components.len()
            invariant
                i <= self.components@.len(),
                components@.len() == i,
                forall|j: int| 0 <= j < i ==> #[trigger] components@[j]@ == self.components@[j]@,
            decreases self.components@.len() - i,
        {
            components.push(self.components[i].clone());
            i = i + 1;
        }
        proof {
            assert(Seq::new(components@.len(), |j: int| components@[j]@) =~= self@);
        }
        UnixPath { components }
    }
}

impl PartialEq for UnixPath {
    /// Whether both paths have the same components in the same order.
    fn eq(&self, other: &UnixPath) -> (same: bool) {
        if self.components.len() != other.components.len() {
            proof {
                assert(self@.len() != other@.len());
            }
            return false;
        }
        let mut i: usize = 0;
        while i < self.components.len()
            invariant
                i <= self.components@.len(),
                self.components@.len() == other.components@.len(),
                forall|j: int| 0 <= j < i ==> self@[j] == other@[j],
            decreases self.components@.len() - i,
        {
            if self.components[i] != other.components[i] {
                proof {
                    let k: int = i as int;
                    assert(self@[k] != other@[k]);
                }
                return false;
            }
            i = i + 1;
        }
        proof {
            assert(self@ =~= other@);
        }
        true
    }
}

impl Eq for UnixPath {

}

impl vstd::std_specs::cmp::PartialEqSpecImpl for UnixPath {
    open spec fn obeys_eq_spec() -> bool {
        true
    }

    open spec fn eq_spec(&self, other: &UnixPath) -> bool {
        self@ == other@
    }
}

} // verus!
