//! The console output device: a cursor over the text buffer and a buffer
//! of bytes that the console hands back to its reader.

use vstd::prelude::*;
use crate::mover::{copy_nonoverlapping, overlaid};
use crate::traits::{LockableDevice, Read};

verus! {

/// Default address of the text buffer.
pub const DEF_ADDR_TXT: usize = 0xb8000;

/// The size of the return buffer in bytes.
pub const RET_BUF_SIZE: usize = 128;

/// The console output device. It is used through the guard that `lock`
/// returns.
pub struct ConsoleOutput {
    addr: usize,
    max_x: usize,
    max_y: usize,
    cur_x: usize,
    cur_y: usize,
    ret_buf: Vec<u8>,
    locked: bool,
}

/// Exclusive access to the console output: its geometry, its cursor and
/// its return buffer.
pub struct ConsoleOutputGuard {
    pub addr: usize,
    pub max_x: usize,
    pub max_y: usize,
    pub cur_x: usize,
    pub cur_y: usize,
    pub ret_buf: Vec<u8>,
}

impl ConsoleOutput {
    /// The address of the text buffer.
    pub closed spec fn buffer_address(&self) -> usize {
        self.addr
    }

    /// The last column and the last row.
    pub closed spec fn limits(&self) -> (usize, usize) {
        (self.max_x, self.max_y)
    }

    /// The column and the row of the cursor.
    pub closed spec fn cursor(&self) -> (usize, usize) {
        (self.cur_x, self.cur_y)
    }

    /// The bytes of the return buffer.
    pub closed spec fn returned(&self) -> Seq<u8> {
        self.ret_buf@
    }

    /// Whether a guard is out.
    pub closed spec fn locked(&self) -> bool {
        self.locked
    }

    /// Creates a console output over the text buffer at `addr`, with the
    /// cursor at the top left and an empty return buffer.
    pub fn new(addr: usize, max_cols: usize, max_rows: usize) -> (console: Self)
        requires
            max_cols >= 1,
            max_rows >= 1,
        ensures
            console.buffer_address() == addr,
            console.limits() == ((max_cols - 1) as usize, (max_rows - 1) as usize),
            console.cursor() == (0usize, 0usize),
            console.returned() == Seq::new(RET_BUF_SIZE as nat, |i: int| 0u8),
            !console.locked(),
    {
        let mut ret_buf: Vec<u8> = Vec::new();
        let mut i: usize = 0;
        while i < RET_BUF_SIZE
            invariant
                i <= RET_BUF_SIZE,
                ret_buf@ == Seq::new(i as nat, |j: int| 0u8),
            decreases RET_BUF_SIZE - i,
        {
            ret_buf.push(0);
            i = i + 1;
            assert(ret_buf@ =~= Seq::new(i as nat, |j: int| 0u8));
        }
        ConsoleOutput {
            addr,
            max_x: max_cols - 1,
            max_y: max_rows - 1,
            cur_x: 0,
            cur_y: 0,
            ret_buf,
            locked: false,
        }
    }

    /// Ends exclusive access: the cursor and the return buffer of the
    /// guard become those of the console.
    pub fn unlock(&mut self, guard: ConsoleOutputGuard)
        ensures
            !final(self).locked(),
            final(self).buffer_address() == old(self).buffer_address(),
            final(self).limits() == old(self).limits(),
            final(self).cursor() == (guard.cur_x, guard.cur_y),
            final(self).returned() == guard.ret_buf@,
    {
        self.cur_x = guard.cur_x;
        self.cur_y = guard.cur_y;
        self.ret_buf = guard.ret_buf;
        self.locked = false;
    }
}

impl LockableDevice for ConsoleOutput {
    type GuardType = ConsoleOutputGuard;

    type Error = ();

    open spec fn unlocked(&self) -> bool {
        !self.locked()
    }

    /// Locks the console output and returns its guard. This never fails.
    fn lock(&mut self) -> (res: Result<ConsoleOutputGuard, ()>)
        ensures
            final(self).locked(),
            final(self).buffer_address() == old(self).buffer_address(),
            final(self).limits() == old(self).limits(),
            final(self).cursor() == old(self).cursor(),
            final(self).returned() == old(self).returned(),
            res matches Ok(guard) && guard.addr == old(self).buffer_address() && (
            guard.max_x,
            guard.max_y,
        ) == old(self).limits() && (guard.cur_x, guard.cur_y) == old(self).cursor()
                && guard.ret_buf@ == old(self).returned(),
    {
        self.locked = true;
        Ok(
            ConsoleOutputGuard {
                addr: self.addr,
                max_x: self.max_x,
                max_y: self.max_y,
                cur_x: self.cur_x,
                cur_y: self.cur_y,
                ret_buf: self.ret_buf.clone(),
            },
        )
    }
}

impl Read for ConsoleOutputGuard {
    type ReadError = ();

    open spec fn has_read(
        &self,
        pre: &Self,
        before: Seq<u8>,
        after: Seq<u8>,
        res: Result<usize, ()>,
    ) -> bool {
        let size = if before.len() <= pre.ret_buf@.len() {
            before.len()
        } else {
            pre.ret_buf@.len()
        };
        &&& *self == *pre
        &&& res == Ok::<usize, ()>(size as usize)
        &&& after == overlaid(before, pre.ret_buf@, size as int)
    }

    /// Copies the start of the return buffer to the start of `buf`, as
    /// many bytes as the shorter of the two holds.
    fn read(&mut self, buf: &mut Vec<u8>) -> (res: Result<usize, ()>)
        ensures
            *final(self) == *old(self),
            res == Ok::<usize, ()>(
                if old(buf)@.len() <= old(self).ret_buf@.len() {
                    old(buf)@.len() as usize
                } else {
                    old(self).ret_buf@.len() as usize
                },
            ),
            final(buf)@ == overlaid(old(buf)@, old(self).ret_buf@, res->Ok_0 as int),
    {
        let size: usize = copy_nonoverlapping(buf, self.ret_buf.as_slice());
        Ok(size)
    }
}

} // verus!
