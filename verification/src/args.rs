//! Program arguments: the application path, then the command line trimmed and split at
//! each space.
use vstd::prelude::*;

verus! {

/// Unicode `White_Space`, the characters that `char::is_whitespace` accepts.
pub open spec fn is_white_space(c: char) -> bool {
    let v = c as u32;
    (0x09 <= v <= 0x0D) || v == 0x20 || v == 0x85 || v == 0xA0 || v == 0x1680
        || (0x2000 <= v <= 0x200A) || v == 0x2028 || v == 0x2029 || v == 0x202F || v == 0x205F
        || v == 0x3000
}

/// `s` without its leading white space.
pub open spec fn trim_start(s: Seq<char>) -> Seq<char>
    decreases s.len(),
{
    if s.len() > 0 && is_white_space(s[0]) { trim_start(s.drop_first()) } else { s }
}

/// `s` without its trailing white space.
pub open spec fn trim_end(s: Seq<char>) -> Seq<char>
    decreases s.len(),
{
    if s.len() > 0 && is_white_space(s.last()) { trim_end(s.drop_last()) } else { s }
}

/// `s` without white space at either end.
pub open spec fn trim(s: Seq<char>) -> Seq<char> {
    trim_end(trim_start(s))
}

/// The pieces of `s` between single spaces, as `str::split(' ')` yields them: one more
/// piece than there are spaces, empty pieces included.
pub open spec fn split_spaces(s: Seq<char>) -> Seq<Seq<char>>
    decreases s.len(),
{
    if s.len() == 0 {
        seq![Seq::<char>::empty()]
    } else {
        let init = split_spaces(s.drop_last());
        if s.last() == ' ' {
            init.push(Seq::<char>::empty())
        } else {
            init.update(init.len() - 1, init.last().push(s.last()))
        }
    }
}

/// The pieces joined again, one space between each two.
pub open spec fn join_spaces(p: Seq<Seq<char>>) -> Seq<char>
    decreases p.len(),
{
    if p.len() <= 1 {
        if p.len() == 0 { Seq::empty() } else { p[0] }
    } else {
        join_spaces(p.drop_last()) + seq![' '] + p.last()
    }
}

/// The arguments for an application path and a raw command line: the path, then nothing
/// when the trimmed command line is empty, else its pieces between spaces.
pub open spec fn argument_list(app_path: Seq<char>, command_line: Seq<char>) -> Seq<Seq<char>> {
    let t = trim(command_line);
    if t.len() == 0 { seq![app_path] } else { seq![app_path] + split_spaces(t) }
}

proof fn lemma_split_nonempty(s: Seq<char>)
    ensures
        split_spaces(s).len() >= 1,
    decreases s.len(),
{
    if s.len() > 0 {
        lemma_split_nonempty(s.drop_last());
    }
}

/// Splitting at spaces and joining with spaces gives the text back.
pub proof fn lemma_split_join(s: Seq<char>)
    ensures
        join_spaces(split_spaces(s)) == s,
    decreases s.len(),
{
    if s.len() == 0 {
    } else {
        let init = split_spaces(s.drop_last());
        lemma_split_join(s.drop_last());
        lemma_split_nonempty(s.drop_last());
        if s.last() == ' ' {
            let p = init.push(Seq::<char>::empty());
            assert(p.drop_last() =~= init);
            assert(join_spaces(p) =~= join_spaces(init) + seq![' ']);
            assert(s =~= s.drop_last() + seq![' ']);
        } else {
            let p = init.update(init.len() - 1, init.last().push(s.last()));
            if init.len() == 1 {
                assert(join_spaces(p) == p[0]);
                assert(join_spaces(init) == init[0]);
                assert(s =~= s.drop_last().push(s.last()));
            } else {
                assert(p.drop_last() =~= init.drop_last());
                assert(join_spaces(p) == join_spaces(init.drop_last()) + seq![' '] + init.last().push(s.last()));
                assert(join_spaces(init) == join_spaces(init.drop_last()) + seq![' '] + init.last());
                assert(s =~= s.drop_last().push(s.last()));
                assert(join_spaces(p) =~= join_spaces(init).push(s.last()));
            }
        }
    }
}

/// No piece holds a space.
pub proof fn lemma_split_pieces_have_no_space(s: Seq<char>)
    ensures
        forall|i: int| 0 <= i < split_spaces(s).len() ==> !(#[trigger] split_spaces(s)[i]).contains(' '),
    decreases s.len(),
{
    if s.len() > 0 {
        lemma_split_pieces_have_no_space(s.drop_last());
        lemma_split_nonempty(s.drop_last());
        let init = split_spaces(s.drop_last());
        if s.last() != ' ' {
            let q = init.last().push(s.last());
            assert(!q.contains(' ')) by {
                if q.contains(' ') {
                    let k = choose|k: int| 0 <= k < q.len() && q[k] == ' ';
                    assert(init[init.len() - 1][k] == ' ');
                }
            }
        }
    }
}

pub fn is_whitespace(c: char) -> (b: bool)
    ensures
        b == is_white_space(c),
{
    let v = c as u32;
    (0x09 <= v && v <= 0x0D) || v == 0x20 || v == 0x85 || v == 0xA0 || v == 0x1680
        || (0x2000 <= v && v <= 0x200A) || v == 0x2028 || v == 0x2029 || v == 0x202F || v == 0x205F
        || v == 0x3000
}

proof fn lemma_trim_start_step(s: Seq<char>, i: int)
    requires
        0 <= i < s.len(),
        is_white_space(s[i]),
    ensures
        trim_start(s.subrange(i, s.len() as int)) == trim_start(s.subrange(i + 1, s.len() as int)),
{
    assert(s.subrange(i, s.len() as int).drop_first() =~= s.subrange(i + 1, s.len() as int));
}

/// `s` without white space at either end.
pub fn trim_chars(s: &Vec<char>) -> (t: Vec<char>)
    ensures
        t@ == trim(s@),
{
    let n = s.len();
    let mut i: usize = 0;
    assert(s@.subrange(0, n as int) =~= s@);
    while i < n && is_whitespace(s[i])
        invariant
            i <= n,
            n == s@.len(),
            trim_start(s@) == trim_start(s@.subrange(i as int, n as int)),
        decreases n - i,
    {
        proof { lemma_trim_start_step(s@, i as int); }
        i = i + 1;
    }
    assert(s@.subrange(0, n as int) =~= s@);
    let ghost rest = s@.subrange(i as int, n as int);
    assert(trim_start(rest) == rest) by {
        if rest.len() > 0 {
            assert(rest[0] == s@[i as int]);
        }
    }
    let mut j: usize = n;
    while j > i && is_whitespace(s[j - 1])
        invariant
            i <= j <= n,
            n == s@.len(),
            trim_end(rest) == trim_end(s@.subrange(i as int, j as int)),
            rest == s@.subrange(i as int, n as int),
        decreases j - i,
    {
        proof {
            let u = s@.subrange(i as int, j as int);
            assert(u.last() == s@[j - 1]);
            assert(u.drop_last() =~= s@.subrange(i as int, j - 1));
        }
        j = j - 1;
    }
    let ghost kept = s@.subrange(i as int, j as int);
    assert(trim_end(kept) == kept) by {
        if kept.len() > 0 {
            assert(kept.last() == s@[j - 1]);
        }
    }
    let mut t: Vec<char> = Vec::new();
    let mut k = i;
    while k < j
        invariant
            i <= k <= j <= n,
            n == s@.len(),
            t@ == s@.subrange(i as int, k as int),
        decreases j - k,
    {
        t.push(s[k]);
        k = k + 1;
        assert(t@ =~= s@.subrange(i as int, k as int));
    }
    t
}

/// The pieces of `s` between single spaces.
pub fn split_at_spaces(s: &Vec<char>) -> (p: Vec<Vec<char>>)
    ensures
        p@.map_values(|v: Vec<char>| v@) == split_spaces(s@),
{
    let mut done: Vec<Vec<char>> = Vec::new();
    let mut current: Vec<char> = Vec::new();
    let mut i: usize = 0;
    while i < s.len()
        invariant
            i <= s@.len(),
            done@.map_values(|v: Vec<char>| v@).push(current@) == split_spaces(s@.subrange(0, i as int)),
        decreases s@.len() - i,
    {
        let ghost prefix = s@.subrange(0, i as int + 1);
        assert(prefix.drop_last() =~= s@.subrange(0, i as int));
        let ghost before = done@.map_values(|v: Vec<char>| v@);
        if s[i] == ' ' {
            let piece = current;
            done.push(piece);
            current = Vec::new();
            assert(done@.map_values(|v: Vec<char>| v@) =~= before.push(piece@));
            assert(done@.map_values(|v: Vec<char>| v@).push(current@) =~= before.push(piece@).push(Seq::<char>::empty()));
        } else {
            let ghost old_cur = current@;
            current.push(s[i]);
            assert(done@.map_values(|v: Vec<char>| v@).push(current@) =~= before.push(old_cur).update(
                before.len() as int, old_cur.push(s@[i as int])));
        }
        i = i + 1;
    }
    assert(s@.subrange(0, s@.len() as int) =~= s@);
    let ghost before = done@.map_values(|v: Vec<char>| v@);
    done.push(current);
    assert(done@.map_values(|v: Vec<char>| v@) =~= before.push(current@));
    done
}

/// The arguments of the program, remaining ones last first so that the next is popped.
#[derive(Debug)]
pub struct Args {
    reversed: Vec<Vec<char>>,
}

impl Args {
    /// The arguments not yet taken, in order.
    pub closed spec fn view(&self) -> Seq<Seq<char>> {
        self.reversed@.map_values(|v: Vec<char>| v@).reverse()
    }

    /// The next argument, if any remain.
    pub fn next(&mut self) -> (r: Option<Vec<char>>)
        ensures
            old(self)@.len() == 0 ==> r.is_none() && final(self)@ == old(self)@,
            old(self)@.len() > 0 ==> r.is_some() && r.unwrap()@ == old(self)@[0]
                && final(self)@ == old(self)@.drop_first(),
    {
        let ghost before = self.reversed@.map_values(|v: Vec<char>| v@);
        let r = self.reversed.pop();
        proof {
            if before.len() > 0 {
                assert(self.reversed@.map_values(|v: Vec<char>| v@) =~= before.drop_last());
                assert(before.drop_last().reverse() =~= before.reverse().drop_first());
            }
        }
        r
    }

    /// Taking from the back is not implemented: there is never an argument there.
    pub fn next_back(&mut self) -> (r: Option<Vec<char>>)
        ensures
            r.is_none(),
            final(self)@ == old(self)@,
    {
        None
    }

    /// The length this iterator reports: always 0.
    pub fn len(&self) -> (n: usize)
        ensures
            n == 0,
    {
        0
    }
}

/// The arguments of a program started with the given application path and raw command line
/// (both already checked to be UTF-8).
pub fn args(app_path: Vec<char>, command_line: &Vec<char>) -> (a: Args)
    ensures
        a@ == argument_list(app_path@, command_line@),
{
    let ghost app = app_path@;
    let normalized = trim_chars(command_line);
    let mut all: Vec<Vec<char>> = Vec::new();
    all.push(app_path);
    if normalized.len() > 0 {
        let mut pieces = split_at_spaces(&normalized);
        let ghost p = pieces@;
        all.append(&mut pieces);
        assert(all@.map_values(|v: Vec<char>| v@) =~= seq![app] + p.map_values(|v: Vec<char>| v@));
    } else {
        assert(all@.map_values(|v: Vec<char>| v@) =~= seq![app]);
    }
    let ghost fwd = all@.map_values(|v: Vec<char>| v@);
    assert(fwd == argument_list(app, command_line@));
    let mut reversed: Vec<Vec<char>> = Vec::new();
    while all.len() > 0
        invariant
            all@.len() <= fwd.len(),
            all@.map_values(|v: Vec<char>| v@) == fwd.subrange(0, all@.len() as int),
            reversed@.map_values(|v: Vec<char>| v@).reverse() == fwd.subrange(all@.len() as int, fwd.len() as int),
        decreases all@.len(),
    {
        let ghost n = all@.len();
        let ghost before = reversed@.map_values(|v: Vec<char>| v@);
        assert(all@.map_values(|v: Vec<char>| v@)[n - 1] == fwd.subrange(0, n as int)[n - 1]);
        let v = all.pop().unwrap();
        reversed.push(v);
        assert(all@.map_values(|v: Vec<char>| v@) =~= fwd.subrange(0, n - 1));
        assert(reversed@.map_values(|v: Vec<char>| v@) =~= before.push(v@));
        assert(v@ == fwd[n - 1]);
        assert(before.push(v@).reverse() =~= seq![v@] + before.reverse());
        assert(fwd.subrange(n - 1, fwd.len() as int) =~= seq![fwd[n - 1]] + fwd.subrange(n as int, fwd.len() as int));
    }
    let a = Args { reversed };
    assert(a@ =~= fwd);
    a
}

/// The first argument is the application path; the others, joined with single spaces, are
/// the trimmed command line, and none holds a space.
pub proof fn lemma_argument_list(app_path: Seq<char>, command_line: Seq<char>)
    ensures
        argument_list(app_path, command_line)[0] == app_path,
        trim(command_line).len() == 0 ==> argument_list(app_path, command_line).len() == 1,
        trim(command_line).len() > 0 ==>
            join_spaces(argument_list(app_path, command_line).drop_first()) == trim(command_line),
        forall|i: int| 1 <= i < argument_list(app_path, command_line).len()
            ==> !(#[trigger] argument_list(app_path, command_line)[i]).contains(' '),
{
    let t = trim(command_line);
    let l = argument_list(app_path, command_line);
    if t.len() > 0 {
        assert(l.drop_first() =~= split_spaces(t));
        lemma_split_join(t);
        lemma_split_pieces_have_no_space(t);
        assert forall|i: int| 1 <= i < l.len() implies !(#[trigger] l[i]).contains(' ') by {
            assert(l[i] == split_spaces(t)[i - 1]);
        }
    }
}

} // verus!
