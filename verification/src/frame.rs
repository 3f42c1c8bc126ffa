//! The text the renderer writes for the outputs of all threads: the screen is
//! cleared, then each thread's lines follow in order of thread id, each block
//! ended by a blank line.
use vstd::prelude::*;
use crate::strs::{push_str, strings};

verus! {

/// The lines of one thread, each followed by a line break, and a blank line after them.
pub open spec fn thread_block(lines: Seq<Seq<char>>) -> Seq<char>
    decreases lines.len(),
{
    if lines.len() == 0 {
        "\n"@
    } else {
        let rest = thread_block(lines.drop_first());
        lines[0] + "\n"@ + rest
    }
}

/// The index of the entry with the smallest thread id among the first `n`.
pub open spec fn min_index(entries: Seq<(usize, Seq<Seq<char>>)>, n: nat) -> int
    decreases n,
{
    if n <= 1 {
        0
    } else {
        let m = min_index(entries, (n - 1) as nat);
        if entries[n - 1].0 < entries[m].0 {
            n - 1
        } else {
            m
        }
    }
}

/// The blocks of the entries, smallest thread id first.
pub open spec fn blocks_in_order(entries: Seq<(usize, Seq<Seq<char>>)>) -> Seq<char>
    decreases entries.len(),
{
    if entries.len() == 0 {
        Seq::empty()
    } else {
        let m = min_index(entries, entries.len());
        if 0 <= m < entries.len() {
            thread_block(entries[m].1) + blocks_in_order(entries.remove(m))
        } else {
            Seq::empty()
        }
    }
}

proof fn lemma_min_index_bounds(entries: Seq<(usize, Seq<Seq<char>>)>, n: nat)
    requires
        1 <= n <= entries.len(),
    ensures
        0 <= min_index(entries, n) < n,
        forall|k: int| 0 <= k < n ==> entries[min_index(entries, n)].0 <= #[trigger] entries[k].0,
    decreases n,
{
    if n > 1 {
        lemma_min_index_bounds(entries, (n - 1) as nat);
    }
}

/// Blocks come smallest thread id first: the frame's blocks start with the block
/// of an entry whose thread id is no larger than any other's, followed by the
/// blocks of the other entries.
pub proof fn law_blocks_smallest_first(entries: Seq<(usize, Seq<Seq<char>>)>)
    requires
        entries.len() > 0,
    ensures
        exists|m: int|
            0 <= m < entries.len() && (forall|k: int| 0 <= k < entries.len() ==> entries[m].0 <= #[trigger] entries[k].0)
                && #[trigger] blocks_in_order(entries) == thread_block(entries[m].1) + blocks_in_order(entries.remove(m)),
{
    lemma_min_index_bounds(entries, entries.len());
    let m = min_index(entries, entries.len());
    assert(blocks_in_order(entries) == thread_block(entries[m].1) + blocks_in_order(entries.remove(m)));
}

/// The escape sequence that clears the screen and moves to its top-left corner.
pub open spec fn clear_screen() -> Seq<char> {
    "\x1B[2J\x1B[1H"@
}

fn push_block(out: &mut String, lines: &Vec<String>)
    ensures
        final(out)@ == old(out)@ + thread_block(strings(lines@)),
{
    let ghost all = strings(lines@);
    let mut i: usize = 0;
    assert(all.skip(0) =~= all);
    while i < lines.len()
        invariant
            i <= lines@.len(),
            all == strings(lines@),
            out@ + thread_block(all.skip(i as int)) == old(out)@ + thread_block(all),
        decreases lines@.len() - i,
    {
        let ghost before = out@;
        proof {
            let t = all.skip(i as int);
            assert(t[0] == lines@[i as int]@);
            assert(t.drop_first() =~= all.skip(i as int + 1));
        }
        push_str(out, lines[i].as_str());
        push_str(out, "\n");
        i = i + 1;
        assert(before + thread_block(all.skip(i as int - 1)) =~= out@ + thread_block(all.skip(i as int)));
    }
    assert(all.skip(lines@.len() as int) =~= Seq::<Seq<char>>::empty());
    push_str(out, "\n");
}

/// The views of the entries.
pub open spec fn entry_views(v: Seq<(usize, Vec<String>)>) -> Seq<(usize, Seq<Seq<char>>)> {
    v.map_values(|e: (usize, Vec<String>)| (e.0, strings(e.1@)))
}

/// The text for the outputs of the threads, or `None` when there are none (the
/// renderer then writes nothing).
pub fn compose_frame(outputs: Vec<(usize, Vec<String>)>) -> (r: Option<String>)
    ensures
        outputs@.len() == 0 ==> r is None,
        outputs@.len() > 0 ==> (r matches Some(s) && s@ == clear_screen() + blocks_in_order(entry_views(outputs@))),
{
    if outputs.len() == 0 {
        return None;
    }
    let ghost all = entry_views(outputs@);
    let mut rest = outputs;
    let mut out = String::new();
    push_str(&mut out, "\x1B[2J\x1B[1H");
    while rest.len() > 0
        invariant
            out@ + blocks_in_order(entry_views(rest@)) == clear_screen() + blocks_in_order(all),
        decreases rest@.len(),
    {
        let ghost ev = entry_views(rest@);
        let mut m: usize = 0;
        let mut k: usize = 1;
        while k < rest.len()
            invariant
                1 <= k <= rest@.len(),
                ev == entry_views(rest@),
                m as int == min_index(ev, k as nat),
            decreases rest@.len() - k,
        {
            proof {
                lemma_min_index_bounds(ev, k as nat);
                assert(ev[k as int].0 == rest@[k as int].0);
                assert(ev[m as int].0 == rest@[m as int].0);
            }
            if rest[k].0 < rest[m].0 {
                m = k;
            }
            k = k + 1;
        }
        proof {
            lemma_min_index_bounds(ev, rest@.len() as nat);
        }
        let entry = rest.remove(m);
        proof {
            assert(entry_views(rest@) =~= ev.remove(m as int));
            assert(ev[m as int] == (entry.0, strings(entry.1@)));
        }
        let ghost before = out@;
        push_block(&mut out, &entry.1);
    }
    assert(entry_views(rest@) =~= Seq::<(usize, Seq<Seq<char>>)>::empty());
    Some(out)
}

} // verus!
