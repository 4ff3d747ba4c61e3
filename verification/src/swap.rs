//! Page swapping: a batching swap session that accumulates virtual
//! addresses and flushes them as newline-terminated lowercase hexadecimal
//! lines, and the watermark plumbing of proactive swapcache reclaim.
//!
//! The session never touches the kernel itself: the embedding binary hands
//! it a write capability — a function that sends one buffer to the
//! process's swap interface and reports the byte count the kernel took —
//! and the session decides what to write and when.

use vstd::prelude::*;

use crate::error::{EtmemError, EtmemResult};
use crate::strfmt::{spec_hex_digits, u64_to_hex};
use crate::sys::SwapcacheWmarkArg;
use crate::types::{SwapConfig, WatermarkConfig};

verus! {

/// The flush buffer of a batch: for each address, its lowercase
/// hexadecimal numeral followed by a newline.
pub open spec fn spec_hex_lines(addrs: Seq<u64>) -> Seq<char>
    decreases addrs.len(),
{
    if addrs.len() == 0 {
        Seq::empty()
    } else {
        spec_hex_lines(addrs.drop_last()) + spec_hex_digits(addrs.last() as int) + seq!['\n']
    }
}

/// What a flush returns for each outcome of the write capability: a
/// non-negative byte count accepts the whole batch of `count` addresses, a
/// negative one is a kernel rejection, and a reported error passes through.
pub fn flush_outcome(write_result: EtmemResult<i64>, count: usize) -> (r: EtmemResult<usize>)
    ensures
        match write_result {
            Ok(n) => if n >= 0 {
                r == EtmemResult::<usize>::Ok(count)
            } else {
                r is Err && r->Err_0 is SwapFailed
                    && r->Err_0->SwapFailed_0@ == "Kernel rejected swap request"@
            },
            Err(e) => r == EtmemResult::<usize>::Err(e),
        },
{
    match write_result {
        Ok(n) => {
            if n >= 0 {
                Ok(count)
            } else {
                let mut msg = String::new();
                msg.append("Kernel rejected swap request");
                proof {
                    assert(msg@ =~= "Kernel rejected swap request"@);
                }
                Err(EtmemError::SwapFailed(msg))
            }
        },
        Err(e) => Err(e),
    }
}

/// The verified state of a swap session: its configuration, the process it
/// is bound to, and the batch of addresses not yet flushed. The kernel
/// file itself is owned by the embedding binary, which supplies the write
/// capability.
#[derive(Debug)]
pub struct SwapSession {
    /// Swap configuration
    pub config: SwapConfig,
    /// Process whose pages are swapped
    pub pid: u32,
    /// Addresses accumulated and not yet flushed
    pub pending_addrs: Vec<u64>,
}

impl SwapSession {
    /// Open a session: the process ID must be non-zero and the configured
    /// watermark valid; the batch starts empty.
    pub fn new(pid: u32, config: SwapConfig) -> (r: EtmemResult<SwapSession>)
        ensures
            r is Ok <==> (pid != 0 && config.watermark.spec_valid()),
            pid == 0 ==> r == EtmemResult::<SwapSession>::Err(EtmemError::InvalidPid),
            pid != 0 ==> match config.watermark.validate_result() {
                Ok(_) => true,
                Err(e) => r == EtmemResult::<SwapSession>::Err(e),
            },
            r is Ok ==> ({
                let s = r->Ok_0;
                &&& s.pid == pid
                &&& s.config == config
                &&& s.pending_addrs@.len() == 0
            }),
    {
        if pid == 0 {
            return Err(EtmemError::InvalidPid);
        }
        match config.watermark.validate() {
            Err(e) => return Err(e),
            Ok(()) => {},
        }
        Ok(SwapSession { config, pid, pending_addrs: Vec::new() })
    }

    /// The flush buffer of the current batch.
    pub fn flush_buffer(&self) -> (r: String)
        ensures
            r@ == spec_hex_lines(self.pending_addrs@),
    {
        let mut buf = String::new();
        proof {
            assert(self.pending_addrs@.subrange(0, 0) =~= Seq::<u64>::empty());
            assert(buf@ =~= spec_hex_lines(self.pending_addrs@.subrange(0, 0)));
        }
        let mut i: usize = 0;
        while i < self.pending_addrs.len()
            invariant
                i <= self.pending_addrs@.len(),
                buf@ == spec_hex_lines(self.pending_addrs@.subrange(0, i as int)),
            decreases self.pending_addrs@.len() - i,
        {
            let line = u64_to_hex(self.pending_addrs[i]);
            buf.append(line.as_str());
            proof {
                reveal_strlit("\n");
            }
            buf.append("\n");
            proof {
                let pre = self.pending_addrs@.subrange(0, i as int);
                let cur = self.pending_addrs@.subrange(0, i + 1);
                assert(cur.drop_last() =~= pre);
                assert(cur.last() == self.pending_addrs@[i as int]);
                assert(buf@ =~= spec_hex_lines(cur));
            }
            i = i + 1;
        }
        proof {
            assert(self.pending_addrs@.subrange(0, self.pending_addrs@.len() as int)
                =~= self.pending_addrs@);
        }
        buf
    }

    /// Flush the batch through the write capability.
    ///
    /// An empty batch is a no-op returning zero, with nothing written.
    /// Otherwise the whole buffer goes out in one write; on success the
    /// batch is cleared and its size returned, and on failure — a reported
    /// error or a negative byte count — the batch is kept for retry.
    pub fn flush<F: Fn(String) -> EtmemResult<i64>>(&mut self, write: &F) -> (r: EtmemResult<
        usize,
    >)
        requires
            forall|s: String| #[trigger] call_requires(*write, (s,)),
        ensures
            old(self).pending_addrs@.len() == 0 ==> r == EtmemResult::<usize>::Ok(0)
                && *final(self) == *old(self),
            r is Ok ==> final(self).pending_addrs@.len() == 0,
            old(self).pending_addrs@.len() > 0 && r is Ok
                ==> r->Ok_0 == old(self).pending_addrs@.len(),
            r is Err ==> *final(self) == *old(self),
            final(self).config == old(self).config,
            final(self).pid == old(self).pid,
    {
        if self.pending_addrs.len() == 0 {
            return Ok(0);
        }

        let buf = self.flush_buffer();
        let count = self.pending_addrs.len();
        let write_result = write(buf);

        match flush_outcome(write_result, count) {
            Ok(n) => {
                self.pending_addrs = Vec::new();
                Ok(n)
            },
            Err(e) => Err(e),
        }
    }

    /// Add one address to the batch. The address must be 4096-byte
    /// aligned. When the batch reaches the configured threshold the session
    /// flushes it through the write capability by itself: after a
    /// successful automatic flush the batch is empty, and after a failed
    /// one the batch — including the new address — is kept.
    pub fn add_address<F: Fn(String) -> EtmemResult<i64>>(&mut self, addr: u64, write: &F) -> (r:
        EtmemResult<()>)
        requires
            forall|s: String| #[trigger] call_requires(*write, (s,)),
        ensures
            addr % 4096 != 0 ==> r == EtmemResult::<()>::Err(EtmemError::InvalidAddress)
                && *final(self) == *old(self),
            addr % 4096 == 0 && old(self).pending_addrs@.len() + 1
                < old(self).config.max_pages ==> r is Ok && final(self).pending_addrs@
                == old(self).pending_addrs@.push(addr),
            addr % 4096 == 0 && old(self).pending_addrs@.len() + 1
                >= old(self).config.max_pages ==> {
                &&& r is Ok ==> final(self).pending_addrs@.len() == 0
                &&& r is Err ==> final(self).pending_addrs@
                    == old(self).pending_addrs@.push(addr)
            },
            final(self).config == old(self).config,
            final(self).pid == old(self).pid,
    {
        if addr % 4096 != 0 {
            return Err(EtmemError::InvalidAddress);
        }

        self.pending_addrs.push(addr);

        if self.pending_addrs.len() >= self.config.max_pages as usize {
            match self.flush(write) {
                Ok(_) => Ok(()),
                Err(e) => Err(e),
            }
        } else {
            Ok(())
        }
    }

    /// Add several addresses in order, stopping at the first failure.
    ///
    /// When every address is aligned and the batch never reaches the
    /// threshold, all of them end up pending in order and nothing is
    /// written.
    pub fn add_addresses<F: Fn(String) -> EtmemResult<i64>>(
        &mut self,
        addrs: &[u64],
        write: &F,
    ) -> (r: EtmemResult<()>)
        requires
            forall|s: String| #[trigger] call_requires(*write, (s,)),
        ensures
            (forall|k: int| 0 <= k < addrs@.len() ==> #[trigger] addrs@[k] % 4096 == 0)
                && old(self).pending_addrs@.len() + addrs@.len()
                < old(self).config.max_pages ==> r is Ok && final(self).pending_addrs@
                == old(self).pending_addrs@ + addrs@,
            (exists|k: int| 0 <= k < addrs@.len() && #[trigger] addrs@[k] % 4096 != 0
                && (forall|j: int| 0 <= j < k ==> addrs@[j] % 4096 == 0)
                && old(self).pending_addrs@.len() + k < old(self).config.max_pages)
                ==> r == EtmemResult::<()>::Err(EtmemError::InvalidAddress),
            final(self).config == old(self).config,
            final(self).pid == old(self).pid,
    {
        let mut i: usize = 0;
        proof {
            assert(addrs@.subrange(0, 0) =~= Seq::<u64>::empty());
            assert(old(self).pending_addrs@ + addrs@.subrange(0, 0)
                =~= old(self).pending_addrs@);
        }
        while i < addrs.len()
            invariant
                i <= addrs@.len(),
                forall|s: String| #[trigger] call_requires(*write, (s,)),
                self.config == old(self).config,
                self.pid == old(self).pid,
                (forall|j: int| 0 <= j < i ==> #[trigger] addrs@[j] % 4096 == 0)
                    && old(self).pending_addrs@.len() + i < old(self).config.max_pages
                    ==> self.pending_addrs@ == old(self).pending_addrs@ + addrs@.subrange(
                    0,
                    i as int,
                ),
                forall|k: int| 0 <= k < i ==> !((#[trigger] addrs@[k] % 4096) != 0
                    && (forall|j: int| 0 <= j < k ==> addrs@[j] % 4096 == 0)
                    && old(self).pending_addrs@.len() + k < old(self).config.max_pages),
            decreases addrs@.len() - i,
        {
            let addr = addrs[i];
            let ghost pre_pending = self.pending_addrs@;
            match self.add_address(addr, write) {
                Ok(()) => {},
                Err(e) => {
                    proof {
                        if addr % 4096 != 0
                            && (forall|j: int| 0 <= j < i
                                ==> #[trigger] addrs@[j] % 4096 == 0)
                            && old(self).pending_addrs@.len() + i
                                < old(self).config.max_pages {
                            assert(self.pending_addrs@.len()
                                == old(self).pending_addrs@.len() + i);
                            assert(e == EtmemError::InvalidAddress);
                        }
                    }
                    return Err(e);
                },
            }
            proof {
                if (forall|j: int| 0 <= j < i + 1 ==> #[trigger] addrs@[j] % 4096 == 0)
                    && old(self).pending_addrs@.len() + i + 1 < old(self).config.max_pages {
                    assert(pre_pending == old(self).pending_addrs@ + addrs@.subrange(
                        0,
                        i as int,
                    ));
                    assert(pre_pending.len() + 1 < old(self).config.max_pages);
                    assert(old(self).pending_addrs@ + addrs@.subrange(0, i + 1)
                        =~= pre_pending.push(addrs@[i as int]));
                }
            }
            i = i + 1;
        }
        Ok(())
    }

    /// Add one address and flush at once.
    pub fn swap_address<F: Fn(String) -> EtmemResult<i64>>(&mut self, addr: u64, write: &F) -> (r:
        EtmemResult<()>)
        requires
            forall|s: String| #[trigger] call_requires(*write, (s,)),
        ensures
            addr % 4096 != 0 ==> r == EtmemResult::<()>::Err(EtmemError::InvalidAddress)
                && *final(self) == *old(self),
            r is Ok ==> final(self).pending_addrs@.len() == 0,
            final(self).config == old(self).config,
            final(self).pid == old(self).pid,
    {
        match self.add_address(addr, write) {
            Ok(()) => {},
            Err(e) => {
                return Err(e);
            },
        }
        match self.flush(write) {
            Ok(_) => Ok(()),
            Err(e) => Err(e),
        }
    }

    /// The number of addresses waiting to be flushed.
    pub fn pending_count(&self) -> (r: usize)
        ensures
            r == self.pending_addrs@.len(),
    {
        self.pending_addrs.len()
    }

    /// Whether any address waits to be flushed.
    pub fn has_pending(&self) -> (r: bool)
        ensures
            r == (self.pending_addrs@.len() != 0),
    {
        self.pending_addrs.len() != 0
    }

    /// Drop the batch without swapping.
    pub fn clear_pending(&mut self)
        ensures
            final(self).pending_addrs@.len() == 0,
            final(self).config == old(self).config,
            final(self).pid == old(self).pid,
    {
        self.pending_addrs = Vec::new();
    }

    /// The process this session swaps.
    pub fn pid(&self) -> (r: u32)
        ensures
            r == self.pid,
    {
        self.pid
    }

    /// The session's configuration.
    pub fn config(&self) -> (r: &SwapConfig)
        ensures
            r == &self.config,
    {
        &self.config
    }

    /// The two control-call arguments that set a watermark: level 0 with
    /// the low percentage, then level 1 with the high percentage. An
    /// invalid watermark is rejected exactly as validation rejects it.
    pub fn watermark_args(watermark: WatermarkConfig) -> (r: EtmemResult<
        (SwapcacheWmarkArg, SwapcacheWmarkArg),
    >)
        ensures
            r is Ok <==> watermark.spec_valid(),
            match watermark.validate_result() {
                Ok(_) => r is Ok
                    && r->Ok_0.0 == (SwapcacheWmarkArg {
                        level: 0u32,
                        percent: watermark.low_percent as u32,
                    })
                    && r->Ok_0.1 == (SwapcacheWmarkArg {
                        level: 1u32,
                        percent: watermark.high_percent as u32,
                    }),
                Err(e) => r == EtmemResult::<(SwapcacheWmarkArg, SwapcacheWmarkArg)>::Err(e),
            },
    {
        match watermark.validate() {
            Err(e) => return Err(e),
            Ok(()) => {},
        }
        Ok((
            SwapcacheWmarkArg { level: 0, percent: watermark.low_percent as u32 },
            SwapcacheWmarkArg { level: 1, percent: watermark.high_percent as u32 },
        ))
    }

    /// Record that both watermark control calls went through: the local
    /// mirror takes the new watermark.
    pub fn apply_watermark(&mut self, watermark: WatermarkConfig)
        ensures
            final(self).config.watermark == watermark,
            final(self).config.proactive_reclaim == old(self).config.proactive_reclaim,
            final(self).config.max_pages == old(self).config.max_pages,
            final(self).pid == old(self).pid,
            final(self).pending_addrs == old(self).pending_addrs,
    {
        self.config.watermark = watermark;
    }

    /// Record that the reclaim control call went through: the local mirror
    /// takes the new state.
    pub fn apply_reclaim(&mut self, enabled: bool)
        ensures
            final(self).config.proactive_reclaim == enabled,
            final(self).config.watermark == old(self).config.watermark,
            final(self).config.max_pages == old(self).config.max_pages,
            final(self).pid == old(self).pid,
            final(self).pending_addrs == old(self).pending_addrs,
    {
        self.config.proactive_reclaim = enabled;
    }
}

/// Whether a text read from the kernel swap toggle means "enabled": after
/// trimming ASCII whitespace it is "true", "1" or "enabled".
pub open spec fn spec_is_ws(b: u8) -> bool {
    b == 32 || b == 9 || b == 10 || b == 13
}

/// The bytes with leading and trailing ASCII whitespace removed.
pub open spec fn spec_trim(s: Seq<u8>) -> Seq<u8>
    decreases s.len(),
{
    if s.len() == 0 {
        s
    } else if spec_is_ws(s[0]) {
        spec_trim(s.skip(1))
    } else if spec_is_ws(s.last()) {
        spec_trim(s.drop_last())
    } else {
        s
    }
}

/// Read the kernel swap toggle's text: enabled iff the trimmed bytes are
/// "true", "1" or "enabled".
pub fn parse_swap_enabled(content: &[u8]) -> (r: bool)
    ensures
        r == (spec_trim(content@) =~= seq![116u8, 114u8, 117u8, 101u8]
            || spec_trim(content@) =~= seq![49u8]
            || spec_trim(content@) =~= seq![101u8, 110u8, 97u8, 98u8, 108u8, 101u8, 100u8]),
{
    let mut start: usize = 0;
    let mut end: usize = content.len();

    proof {
        assert(content@.subrange(0, content@.len() as int) =~= content@);
    }
    while start < end && (content[start] == 32 || content[start] == 9 || content[start] == 10
        || content[start] == 13)
        invariant
            start <= end <= content@.len(),
            spec_trim(content@) == spec_trim(content@.subrange(start as int, end as int)),
        decreases end - start,
    {
        proof {
            let cur = content@.subrange(start as int, end as int);
            assert(cur.skip(1) =~= content@.subrange(start + 1, end as int));
        }
        start = start + 1;
    }
    while start < end && (content[end - 1] == 32 || content[end - 1] == 9
        || content[end - 1] == 10 || content[end - 1] == 13)
        invariant
            start <= end <= content@.len(),
            spec_trim(content@) == spec_trim(content@.subrange(start as int, end as int)),
            start < end ==> !spec_is_ws(content@[start as int]),
        decreases end - start,
    {
        proof {
            let cur = content@.subrange(start as int, end as int);
            assert(cur.drop_last() =~= content@.subrange(start as int, end - 1));
        }
        end = end - 1;
    }
    proof {
        let cur = content@.subrange(start as int, end as int);
        assert(spec_trim(cur) == cur);
    }

    let n = end - start;
    if n == 4 {
        let r = content[start] == 116 && content[start + 1] == 114 && content[start + 2] == 117
            && content[start + 3] == 101;
        proof {
            let cur = content@.subrange(start as int, end as int);
            if r {
                assert(cur =~= seq![116u8, 114u8, 117u8, 101u8]);
            } else {
                assert(!(cur =~= seq![116u8, 114u8, 117u8, 101u8]));
            }
            assert(!(cur =~= seq![49u8]));
            assert(!(cur =~= seq![101u8, 110u8, 97u8, 98u8, 108u8, 101u8, 100u8]));
        }
        r
    } else if n == 1 {
        let r = content[start] == 49;
        proof {
            let cur = content@.subrange(start as int, end as int);
            if r {
                assert(cur =~= seq![49u8]);
            } else {
                assert(!(cur =~= seq![49u8]));
            }
        }
        r
    } else if n == 7 {
        let r = content[start] == 101 && content[start + 1] == 110 && content[start + 2] == 97
            && content[start + 3] == 98 && content[start + 4] == 108
            && content[start + 5] == 101 && content[start + 6] == 100;
        proof {
            let cur = content@.subrange(start as int, end as int);
            if r {
                assert(cur =~= seq![101u8, 110u8, 97u8, 98u8, 108u8, 101u8, 100u8]);
            } else {
                assert(!(cur =~= seq![101u8, 110u8, 97u8, 98u8, 108u8, 101u8, 100u8]));
            }
        }
        r
    } else {
        proof {
            let cur = content@.subrange(start as int, end as int);
            assert(!(cur =~= seq![116u8, 114u8, 117u8, 101u8]));
            assert(!(cur =~= seq![49u8]));
            assert(!(cur =~= seq![101u8, 110u8, 97u8, 98u8, 108u8, 101u8, 100u8]));
        }
        false
    }
}

/// The text written to the kernel swap toggle: "true" to enable, "false"
/// to disable.
pub fn swap_enable_value(enable: bool) -> (r: &'static str)
    ensures
        enable ==> r@ == "true"@,
        !enable ==> r@ == "false"@,
{
    if enable {
        "true"
    } else {
        "false"
    }
}

} // verus!
