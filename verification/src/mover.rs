//! The non-overlapping memory mover.
//!
//! Memory is a byte vector and an address is an index into it, so that
//! overlap and alignment are facts about plain integers.

use vstd::prelude::*;
use crate::failure::Failure;

verus! {

broadcast use vstd::layout::layout_of_primitives;

/// The size of a machine word in bytes.
pub open spec fn word_bytes() -> int {
    vstd::layout::size_of::<usize>() as int
}

/// The machine word is four or eight bytes wide.
pub proof fn lemma_word_bytes()
    ensures
        word_bytes() == 4 || word_bytes() == 8,
        word_bytes() * 8 == usize::BITS,
{
}

/// Returns the size of a machine word in bytes.
pub fn word_size() -> (w: usize)
    ensures
        w == word_bytes(),
        w == 4 || w == 8,
{
    core::mem::size_of::<usize>()
}

/// Two regions of `len` bytes overlap when they start at the same address,
/// or when the one that starts later starts before the other one ends.
pub open spec fn regions_overlap(dest: int, src: int, len: int) -> bool {
    let first = if dest <= src { dest } else { src };
    let second = if dest <= src { src } else { dest };
    dest == src || second < first + len
}

/// Memory after `len` bytes were moved from `src` to `dest`: the destination
/// region holds what the source region held, every other byte is untouched.
pub open spec fn moved(mem: Seq<u8>, dest: int, src: int, len: int) -> Seq<u8> {
    Seq::new(
        mem.len(),
        |i: int| if dest <= i < dest + len { mem[src + (i - dest)] } else { mem[i] },
    )
}

/// Whether both regions start at the same offset within a machine word and
/// end at the same offset within a machine word.
pub open spec fn align_offsets_equal(dest: int, src: int, len: int) -> bool {
    dest % word_bytes() == src % word_bytes() && (dest + len) % word_bytes() == (src + len)
        % word_bytes()
}

/// The number of leading bytes before the first word boundary at or after
/// `addr`.
pub open spec fn leading_bytes(addr: int) -> int {
    (word_bytes() - addr % word_bytes()) % word_bytes()
}

/// Whether the mover copies `len` bytes one by one instead of by words:
/// short spans and regions that disagree in alignment.
pub open spec fn copies_bytewise(dest: int, src: int, len: int) -> bool {
    len <= 2 * word_bytes() || !align_offsets_equal(dest, src, len)
}

/// After a move between disjoint regions the destination equals the source
/// byte for byte, and the source is unchanged.
pub proof fn lemma_moved_matches_source(mem: Seq<u8>, dest: int, src: int, len: int)
    requires
        0 <= len,
        0 <= dest,
        0 <= src,
        dest + len <= mem.len(),
        src + len <= mem.len(),
        len > 0 ==> !regions_overlap(dest, src, len),
    ensures
        moved(mem, dest, src, len).len() == mem.len(),
        moved(mem, dest, src, len).subrange(dest, dest + len) == mem.subrange(src, src + len),
        moved(mem, dest, src, len).subrange(src, src + len) == mem.subrange(src, src + len),
{
    let after = moved(mem, dest, src, len);
    assert(after.subrange(dest, dest + len) =~= mem.subrange(src, src + len));
    assert(after.subrange(src, src + len) =~= mem.subrange(src, src + len));
}

/// Moving nothing changes nothing.
pub proof fn lemma_moved_nothing(mem: Seq<u8>, dest: int, src: int)
    ensures
        moved(mem, dest, src, 0) == mem,
{
    assert(moved(mem, dest, src, 0) =~= mem);
}

/// A move of `a + b` bytes is a move of the first `a` bytes followed by a
/// move of the next `b` bytes.
proof fn lemma_moved_in_two_steps(mem: Seq<u8>, dest: int, src: int, a: int, b: int)
    requires
        0 <= a,
        0 <= b,
        0 <= dest,
        0 <= src,
        dest + a + b <= mem.len(),
        src + a + b <= mem.len(),
        dest + a + b <= src || src + a + b <= dest,
    ensures
        moved(moved(mem, dest, src, a), dest + a, src + a, b) == moved(mem, dest, src, a + b),
{
    assert(moved(moved(mem, dest, src, a), dest + a, src + a, b) =~= moved(
        mem,
        dest,
        src,
        a + b,
    ));
}

/// Decides whether two regions of `len` bytes overlap.
pub fn is_overlapping(dest: usize, src: usize, len: usize) -> (b: bool)
    ensures
        b == regions_overlap(dest as int, src as int, len as int),
{
    let gap: usize = if dest <= src {
        src - dest
    } else {
        dest - src
    };
    dest == src || gap < len
}

/// Decides whether two regions of `len` bytes start and end at the same
/// offsets within a machine word.
pub fn is_align_offset_eq(dest: usize, src: usize, len: usize) -> (b: bool)
    ensures
        b == align_offsets_equal(dest as int, src as int, len as int),
{
    let w: usize = word_size();
    let tail: usize = len % w;
    let dest_start: usize = dest % w;
    let src_start: usize = src % w;
    let dest_end: usize = (dest_start + tail) % w;
    let src_end: usize = (src_start + tail) % w;
    proof {
        lemma_end_offset(dest as int, len as int);
        lemma_end_offset(src as int, len as int);
    }
    dest_start == src_start && dest_end == src_end
}

/// The offset of the end of a region within a word, from the offsets of its
/// start and of its length.
proof fn lemma_end_offset(addr: int, len: int)
    requires
        0 <= addr,
        0 <= len,
    ensures
        (addr + len) % word_bytes() == (addr % word_bytes() + len % word_bytes()) % word_bytes(),
{
    lemma_word_bytes();
    if word_bytes() == 4 {
        assert((addr + len) % 4 == (addr % 4 + len % 4) % 4);
    } else {
        assert((addr + len) % 8 == (addr % 8 + len % 8) % 8);
    }
}

/// Copies `len` bytes one at a time, lowest address first.
fn copy_bytes(mem: &mut Vec<u8>, dest: usize, src: usize, len: usize) -> (ret: usize)
    requires
        dest + len <= old(mem).len(),
        src + len <= old(mem).len(),
        dest + len <= src || src + len <= dest,
    ensures
        ret == dest,
        final(mem)@ == moved(old(mem)@, dest as int, src as int, len as int),
{
    let ghost before = mem@;
    let mut done: usize = 0;
    proof {
        lemma_moved_nothing(before, dest as int, src as int);
    }
    while done < len
        invariant
            done <= len,
            mem.len() == before.len(),
            dest + len <= mem.len(),
            src + len <= mem.len(),
            dest + len <= src || src + len <= dest,
            mem@ == moved(before, dest as int, src as int, done as int),
        decreases len - done,
    {
        let byte: u8 = mem[src + done];
        mem.set(dest + done, byte);
        assert(mem@ =~= moved(before, dest as int, src as int, done + 1));
        done = done + 1;
    }
    dest
}

/// Copies `len` bytes, a whole number of machine words, one word at a time.
fn copy_words(mem: &mut Vec<u8>, dest: usize, src: usize, len: usize) -> (ret: usize)
    requires
        len as int % word_bytes() == 0,
        dest + len <= old(mem).len(),
        src + len <= old(mem).len(),
        dest + len <= src || src + len <= dest,
    ensures
        ret == dest,
        final(mem)@ == moved(old(mem)@, dest as int, src as int, len as int),
{
    let ghost before = mem@;
    let w: usize = word_size();
    let mut done: usize = 0;
    proof {
        lemma_moved_nothing(before, dest as int, src as int);
    }
    while done < len
        invariant
            w == word_bytes(),
            w == 4 || w == 8,
            done <= len,
            done as int % word_bytes() == 0,
            len as int % word_bytes() == 0,
            mem.len() == before.len(),
            dest + len <= mem.len(),
            src + len <= mem.len(),
            dest + len <= src || src + len <= dest,
            mem@ == moved(before, dest as int, src as int, done as int),
        decreases len - done,
    {
        proof {
            if w == 4 {
                assert(done as int % 4 == 0 && len as int % 4 == 0);
            } else {
                assert(done as int % 8 == 0 && len as int % 8 == 0);
            }
            assert(done + w <= len);
            assert((done + w) % word_bytes() == 0) by {
                if w == 4 {
                    assert((done + 4) % 4 == 0);
                } else {
                    assert((done + 8) % 8 == 0);
                }
            }
            lemma_moved_in_two_steps(before, dest as int, src as int, done as int, w as int);
        }
        copy_bytes(mem, dest + done, src + done, w);
        done = done + w;
    }
    dest
}

/// Copies the maximal run of whole words, then the remaining bytes.
fn copy_aligned(mem: &mut Vec<u8>, dest: usize, src: usize, len: usize) -> (ret: usize)
    requires
        dest + len <= old(mem).len(),
        src + len <= old(mem).len(),
        dest + len <= src || src + len <= dest,
    ensures
        ret == dest,
        final(mem)@ == moved(old(mem)@, dest as int, src as int, len as int),
{
    if len == 0 {
        proof {
            lemma_moved_nothing(mem@, dest as int, src as int);
        }
        return dest;
    }
    let ghost before = mem@;
    let w: usize = word_size();
    let num_byte: usize = len % w;
    let run: usize = len - num_byte;
    proof {
        lemma_moved_nothing(before, dest as int, src as int);
        lemma_moved_in_two_steps(before, dest as int, src as int, run as int, num_byte as int);
    }
    if run != 0 {
        copy_words(mem, dest, src, run);
    }
    if num_byte != 0 {
        copy_bytes(mem, dest + run, src + run, num_byte);
    } else {
        proof {
            lemma_moved_nothing(mem@, dest + run, src + run);
        }
    }
    dest
}

/// How a move is carried out: how many bytes are copied one by one before
/// the word run, how many whole words follow, and how many bytes are copied
/// one by one after them.
#[derive(Clone, Copy, Debug, PartialEq, Eq, Structural)]
pub struct MovePlan {
    pub leading: usize,
    pub words: usize,
    pub trailing: usize,
}

/// The plan for a move of `len` bytes.
///
/// Short spans and regions whose word offsets disagree are copied byte by
/// byte for the whole length. Otherwise the leading bytes reach the first
/// word boundary of the destination, the word run is as long as possible,
/// and the trailing bytes are what is left.
pub open spec fn plan_spec(dest: int, src: int, len: int) -> MovePlan {
    if copies_bytewise(dest, src, len) {
        MovePlan { leading: len as usize, words: 0, trailing: 0 }
    } else {
        MovePlan {
            leading: leading_bytes(dest) as usize,
            words: ((len - leading_bytes(dest)) / word_bytes()) as usize,
            trailing: ((len - leading_bytes(dest)) % word_bytes()) as usize,
        }
    }
}

/// The three parts of a plan add up to the length of the move.
pub proof fn lemma_plan_covers_length(dest: usize, src: usize, len: usize)
    ensures
        plan_spec(dest as int, src as int, len as int).leading + plan_spec(
            dest as int,
            src as int,
            len as int,
        ).words * word_bytes() + plan_spec(dest as int, src as int, len as int).trailing == len,
        plan_spec(dest as int, src as int, len as int).leading <= len,
        plan_spec(dest as int, src as int, len as int).trailing < word_bytes(),
        !copies_bytewise(dest as int, src as int, len as int) ==> (dest + plan_spec(
            dest as int,
            src as int,
            len as int,
        ).leading) % word_bytes() == 0 && plan_spec(dest as int, src as int, len as int).leading
            < word_bytes() && plan_spec(dest as int, src as int, len as int).words >= 1,
{
    lemma_word_bytes();
    let d = dest as int;
    let n = len as int;
    if word_bytes() == 4 {
        assert(leading_bytes(d) == (4 - d % 4) % 4);
        assert((d + (4 - d % 4) % 4) % 4 == 0);
        assert(n > 8 ==> (n - (4 - d % 4) % 4) / 4 >= 1);
        assert((n - leading_bytes(d)) / 4 * 4 + (n - leading_bytes(d)) % 4 == n - leading_bytes(
            d,
        ));
    } else {
        assert(leading_bytes(d) == (8 - d % 8) % 8);
        assert((d + (8 - d % 8) % 8) % 8 == 0);
        assert(n > 16 ==> (n - (8 - d % 8) % 8) / 8 >= 1);
        assert((n - leading_bytes(d)) / 8 * 8 + (n - leading_bytes(d)) % 8 == n - leading_bytes(
            d,
        ));
    }
}

/// Computes the plan for a move of `len` bytes from `src` to `dest`.
pub fn plan_move(dest: usize, src: usize, len: usize) -> (plan: MovePlan)
    ensures
        plan == plan_spec(dest as int, src as int, len as int),
{
    let w: usize = word_size();
    if len <= 2 * w || !is_align_offset_eq(dest, src, len) {
        return MovePlan { leading: len, words: 0, trailing: 0 };
    }
    let leading: usize = (w - dest % w) % w;
    let rest: usize = len - leading;
    MovePlan { leading, words: rest / w, trailing: rest % w }
}

/// Moves `len` bytes from `src` to `dest` between regions that the caller
/// guarantees to be disjoint, and returns `dest`.
///
/// The bytes are copied as the plan of the move says: the leading bytes one
/// by one, then the whole words, then the trailing bytes.
pub fn move_unchecked(mem: &mut Vec<u8>, dest: usize, src: usize, len: usize) -> (ret: usize)
    requires
        dest + len <= old(mem).len(),
        src + len <= old(mem).len(),
        len > 0 ==> !regions_overlap(dest as int, src as int, len as int),
    ensures
        ret == dest,
        final(mem)@ == moved(old(mem)@, dest as int, src as int, len as int),
        final(mem)@.subrange(dest as int, dest + len) == old(mem)@.subrange(src as int, src + len),
        final(mem)@.subrange(src as int, src + len) == old(mem)@.subrange(src as int, src + len),
{
    proof {
        lemma_moved_matches_source(mem@, dest as int, src as int, len as int);
    }
    if len == 0 {
        proof {
            lemma_moved_nothing(mem@, dest as int, src as int);
        }
        return dest;
    }
    let ghost before = mem@;
    let plan = plan_move(dest, src, len);
    proof {
        lemma_plan_covers_length(dest, src, len);
        lemma_moved_in_two_steps(
            before,
            dest as int,
            src as int,
            plan.leading as int,
            len - plan.leading,
        );
    }
    copy_bytes(mem, dest, src, plan.leading);
    copy_aligned(mem, dest + plan.leading, src + plan.leading, len - plan.leading);
    dest
}

/// Moves `len` bytes from `src` to `dest` and returns `dest`, unless the
/// regions overlap: then nothing is copied and the overlap is reported.
/// A move of no bytes always succeeds.
pub fn move_checked(mem: &mut Vec<u8>, dest: usize, src: usize, len: usize) -> (res: Result<
    usize,
    Failure,
>)
    requires
        len > 0 && !regions_overlap(dest as int, src as int, len as int) ==> dest + len <= old(
            mem,
        ).len() && src + len <= old(mem).len(),
    ensures
        len == 0 ==> res == Ok::<usize, Failure>(dest) && final(mem)@ == old(mem)@,
        len > 0 && regions_overlap(dest as int, src as int, len as int) ==> res == Err::<
            usize,
            Failure,
        >(Failure::OverlapViolation) && final(mem)@ == old(mem)@,
        len > 0 && !regions_overlap(dest as int, src as int, len as int) ==> res == Ok::<
            usize,
            Failure,
        >(dest) && final(mem)@ == moved(old(mem)@, dest as int, src as int, len as int)
            && final(mem)@.subrange(dest as int, dest + len) == old(mem)@.subrange(
            src as int,
            src + len,
        ) && final(mem)@.subrange(src as int, src + len) == old(mem)@.subrange(
            src as int,
            src + len,
        ),
{
    if len == 0 {
        return Ok(dest);
    }
    if is_overlapping(dest, src, len) {
        return Err(Failure::OverlapViolation);
    }
    Ok(move_unchecked(mem, dest, src, len))
}

/// The conventional three-argument bulk copy: moves `len` bytes between
/// disjoint regions and returns `dest`.
pub fn memcpy(mem: &mut Vec<u8>, dest: usize, src: usize, len: usize) -> (ret: usize)
    requires
        dest + len <= old(mem).len(),
        src + len <= old(mem).len(),
        len > 0 ==> !regions_overlap(dest as int, src as int, len as int),
    ensures
        ret == dest,
        final(mem)@ == moved(old(mem)@, dest as int, src as int, len as int),
{
    move_unchecked(mem, dest, src, len)
}

/// The destination after its first `len` bytes were replaced by the first
/// `len` bytes of the source.
pub open spec fn overlaid(dest: Seq<u8>, src: Seq<u8>, len: int) -> Seq<u8> {
    Seq::new(dest.len(), |i: int| if i < len { src[i] } else { dest[i] })
}

/// Copies between two buffers that cannot overlap, as many bytes as the
/// shorter one holds, and returns that number.
pub fn copy_nonoverlapping(dest: &mut Vec<u8>, src: &[u8]) -> (len: usize)
    ensures
        len == if old(dest)@.len() <= src@.len() {
            old(dest)@.len()
        } else {
            src@.len()
        },
        final(dest)@ == overlaid(old(dest)@, src@, len as int),
{
    let len: usize = if dest.len() <= src.len() {
        dest.len()
    } else {
        src.len()
    };
    let ghost before = dest@;
    let mut done: usize = 0;
    assert(dest@ =~= overlaid(before, src@, 0));
    while done < len
        invariant
            done <= len,
            len <= src@.len(),
            len <= dest.len(),
            dest.len() == before.len(),
            dest@ == overlaid(before, src@, done as int),
        decreases len - done,
    {
        dest.set(done, src[done]);
        assert(dest@ =~= overlaid(before, src@, done + 1));
        done = done + 1;
    }
    len
}

} // verus!
