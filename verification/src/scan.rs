//! Idle-page scanning: the decoder of the kernel's compact per-page byte
//! stream, the run-coalescing accumulator, and the verified state of a scan
//! session. The positioned reads against the kernel are issued by the
//! embedding binary, which hands the bytes read to the functions here.

use std::collections::VecDeque;

use vstd::prelude::*;

use crate::error::{EtmemError, EtmemResult};
use crate::types::{
    AddressRange, BufferStatus, IdlePageInfo, PipEncoding, ProcIdlePageType, ScanConfig,
    ScanFlags, spec_compose, spec_extract_size, spec_extract_type, spec_page_size,
    spec_page_type_from_raw, PAGE_IDLE_KBUF_SIZE,
};

verus! {

/// Addition on 64-bit addresses, wrapping around at the top of the address
/// space as the kernel's cursor arithmetic does.
pub open spec fn spec_wrap_add(a: u64, b: u64) -> u64 {
    if a + b > u64::MAX {
        (a + b - 0x1_0000_0000_0000_0000) as u64
    } else {
        (a + b) as u64
    }
}

/// The 64-bit value read little-endian from eight bytes.
pub open spec fn spec_le64(s: Seq<u8>) -> u64 {
    (s[0] as u64) | ((s[1] as u64) << 8) | ((s[2] as u64) << 16) | ((s[3] as u64) << 24)
        | ((s[4] as u64) << 32) | ((s[5] as u64) << 40) | ((s[6] as u64) << 48)
        | ((s[7] as u64) << 56)
}

/// The cursor after one decoded run: the run's start plus its size, wrapping.
pub open spec fn spec_advance(addr: u64, t: ProcIdlePageType, count: u8) -> u64 {
    spec_wrap_add(addr, (spec_page_size(t) * count) as u64)
}

/// The meaning of a byte stream in the compact per-page encoding, starting
/// with the cursor at `addr`.
///
/// Each regular byte yields one run record at the cursor and advances the
/// cursor by the run's size. A `SET_HVA` control byte followed by at least
/// eight bytes consumes nine bytes and moves the cursor to the 64-bit
/// little-endian value; any other command byte is skipped alone. A type
/// code above 10 stops decoding with an error carrying that code.
pub open spec fn spec_decode_pip(data: Seq<u8>, addr: u64) -> EtmemResult<Seq<IdlePageInfo>>
    decreases data.len(),
{
    if data.len() == 0 {
        Ok(Seq::empty())
    } else {
        let byte = data[0];
        let code = spec_extract_type(byte);
        if code == 10 {
            if byte == PipEncoding::SET_HVA && data.len() > 8 {
                spec_decode_pip(data.skip(9), spec_le64(data.subrange(1, 9)))
            } else {
                spec_decode_pip(data.skip(1), addr)
            }
        } else {
            match spec_page_type_from_raw(code) {
                Some(t) => {
                    let count = (spec_extract_size(byte) + 1) as u8;
                    let rec = IdlePageInfo { address: addr, page_type: t, count };
                    match spec_decode_pip(data.skip(1), spec_advance(addr, t, count)) {
                        Ok(rest) => Ok(seq![rec] + rest),
                        Err(e) => Err(e),
                    }
                },
                None => Err(EtmemError::InvalidPageType(code)),
            }
        }
    }
}

/// Every page size is at most the 1GB size.
pub(crate) proof fn lemma_page_size_bound(t: ProcIdlePageType)
    ensures
        0 < spec_page_size(t) <= 0x40000000,
{
}

/// Control state of an ongoing idle-page scan: the kernel-buffer mirror,
/// the read cursors, the continuation and translation addresses of
/// virtual-machine scanning, and the accumulated run records.
#[derive(Debug)]
pub struct PageIdleCtrl {
    /// Mirror of the kernel buffer for idle-page data
    pub kpie: Vec<u8>,
    /// Current read position in the buffer
    pub pie_read: usize,
    /// Maximum read position in the buffer
    pub pie_read_max: usize,
    /// Next host virtual address to scan
    pub next_hva: u64,
    /// Guest-physical to host-virtual translation offset
    pub gpa_to_hva: u64,
    /// Guest-physical address at which to resume a scan
    pub restart_gpa: u64,
    /// Last virtual address processed
    pub last_va: u64,
    /// Scan flags
    pub flags: ScanFlags,
    /// Accumulated run records
    pub results: VecDeque<IdlePageInfo>,
}

/// Whether a newly observed single run merges into the last accumulated
/// record: same type, contiguous (the last record ends exactly at the new
/// address), room in the count nibble, and a matching page size.
pub open spec fn spec_can_merge(
    results: Seq<IdlePageInfo>,
    addr: u64,
    page_type: ProcIdlePageType,
    page_size: u64,
) -> bool {
    &&& results.len() > 0
    &&& results.last().page_type == page_type
    &&& results.last().spec_end_address() == addr
    &&& results.last().count < 16
    &&& spec_page_size(results.last().page_type) == page_size
}

impl PageIdleCtrl {
    /// Create control state with the given buffer size (clamped to the
    /// kernel maximum) and flags.
    pub fn new(buffer_size: usize, flags: ScanFlags) -> (r: Self)
        ensures
            r.kpie@.len() == PAGE_IDLE_KBUF_SIZE,
            forall|k: int| 0 <= k < r.kpie@.len() ==> r.kpie@[k] == 0,
            r.pie_read == 0,
            r.pie_read_max == if buffer_size <= PAGE_IDLE_KBUF_SIZE { buffer_size as int }
                else { PAGE_IDLE_KBUF_SIZE as int },
            r.next_hva == 0,
            r.gpa_to_hva == 0,
            r.restart_gpa == 0,
            r.last_va == 0,
            r.flags == flags,
            r.results@.len() == 0,
    {
        let buffer_size = if buffer_size < PAGE_IDLE_KBUF_SIZE {
            buffer_size
        } else {
            PAGE_IDLE_KBUF_SIZE
        };
        let mut kpie: Vec<u8> = Vec::new();
        while kpie.len() < PAGE_IDLE_KBUF_SIZE
            invariant
                kpie@.len() <= PAGE_IDLE_KBUF_SIZE,
                forall|k: int| 0 <= k < kpie@.len() ==> kpie@[k] == 0,
            decreases PAGE_IDLE_KBUF_SIZE - kpie@.len(),
        {
            kpie.push(0);
        }
        Self {
            kpie,
            pie_read: 0,
            pie_read_max: buffer_size,
            next_hva: 0,
            gpa_to_hva: 0,
            restart_gpa: 0,
            last_va: 0,
            flags,
            results: VecDeque::new(),
        }
    }

    /// Reset the buffer for a new read pass. The read limit becomes the
    /// remaining room, clamped to the kernel maximum; nine bytes are
    /// reserved at the end for a trailing cursor-relocation command, and a
    /// limit with no such room reports the kernel buffer as full.
    pub fn init_buffer(&mut self, buf_size: usize, bytes_copied: usize) -> (r: BufferStatus)
        ensures
            ({
                let avail = if buf_size >= bytes_copied { buf_size - bytes_copied } else { 0 };
                let m0 = if avail <= PAGE_IDLE_KBUF_SIZE { avail } else { PAGE_IDLE_KBUF_SIZE as int };
                &&& final(self).pie_read == 0
                &&& if m0 > 8 + 2 {
                        &&& r == BufferStatus::Success
                        &&& final(self).pie_read_max == m0 - 9
                        &&& final(self).kpie@.len() == old(self).kpie@.len()
                        &&& forall|k: int| 0 <= k < final(self).kpie@.len()
                            ==> final(self).kpie@[k] == 0
                    } else {
                        &&& r == BufferStatus::KbufFull
                        &&& final(self).pie_read_max == m0
                        &&& final(self).kpie@ == old(self).kpie@
                    }
            }),
            final(self).next_hva == old(self).next_hva,
            final(self).gpa_to_hva == old(self).gpa_to_hva,
            final(self).restart_gpa == old(self).restart_gpa,
            final(self).last_va == old(self).last_va,
            final(self).flags == old(self).flags,
            final(self).results@ == old(self).results@,
    {
        self.pie_read = 0;
        let avail = if buf_size >= bytes_copied { buf_size - bytes_copied } else { 0 };
        self.pie_read_max = if avail < PAGE_IDLE_KBUF_SIZE { avail } else { PAGE_IDLE_KBUF_SIZE };

        if self.pie_read_max > 8 + 2 {
            self.pie_read_max = self.pie_read_max - (8 + 1);
        } else {
            return BufferStatus::KbufFull;
        }

        let n = self.kpie.len();
        let mut fresh: Vec<u8> = Vec::new();
        while fresh.len() < n
            invariant
                fresh@.len() <= n,
                forall|k: int| 0 <= k < fresh@.len() ==> fresh@[k] == 0,
            decreases n - fresh@.len(),
        {
            fresh.push(0);
        }
        self.kpie = fresh;
        BufferStatus::Success
    }

    /// Merge one observed run of a single page into the accumulator, or
    /// append it as a new record.
    ///
    /// A contiguous same-type, same-size observation with room in the count
    /// bumps the last record's count. Otherwise, when the accumulator has
    /// reached half the read limit the kernel buffer is reported full and
    /// nothing changes; else a new single-page record is appended and the
    /// last-visited address is updated.
    pub fn add_page_internal(
        &mut self,
        addr: u64,
        next: u64,
        page_type: ProcIdlePageType,
        page_size: u64,
    ) -> (r: BufferStatus)
        ensures
            ({
                let rs = old(self).results@;
                if spec_can_merge(rs, addr, page_type, page_size) {
                    &&& r == BufferStatus::Success
                    &&& final(self).results@ == rs.update(
                        rs.len() - 1,
                        IdlePageInfo {
                            count: (rs.last().count + 1) as u8,
                            ..rs.last()
                        },
                    )
                    &&& final(self).last_va == old(self).last_va
                } else if rs.len() >= old(self).pie_read_max / 2 {
                    &&& r == BufferStatus::KbufFull
                    &&& final(self).results@ == rs
                    &&& final(self).last_va == old(self).last_va
                } else {
                    &&& r == BufferStatus::Success
                    &&& final(self).results@ == rs.push(
                        IdlePageInfo { address: addr, page_type, count: 1 },
                    )
                    &&& final(self).last_va == addr
                }
            }),
            final(self).kpie@ == old(self).kpie@,
            final(self).pie_read == old(self).pie_read,
            final(self).pie_read_max == old(self).pie_read_max,
            final(self).next_hva == old(self).next_hva,
            final(self).gpa_to_hva == old(self).gpa_to_hva,
            final(self).restart_gpa == old(self).restart_gpa,
            final(self).flags == old(self).flags,
    {
        let _ = next;
        if self.results.len() > 0 {
            let last = self.results.pop_back().unwrap();
            let total = last.total_size();
            let contiguous = last.address <= u64::MAX - total && last.address + total == addr;
            if last.page_type == page_type
                && contiguous
                && last.count < 16
                && last.page_type.page_size() == page_size
            {
                let merged = IdlePageInfo {
                    address: last.address,
                    page_type: last.page_type,
                    count: last.count + 1,
                };
                self.results.push_back(merged);
                proof {
                    assert(self.results@ =~= old(self).results@.update(
                        old(self).results@.len() - 1,
                        IdlePageInfo {
                            count: (old(self).results@.last().count + 1) as u8,
                            ..old(self).results@.last()
                        },
                    ));
                }
                return BufferStatus::Success;
            }
            self.results.push_back(last);
            proof {
                assert(self.results@ =~= old(self).results@);
            }
        }

        if self.results.len() >= self.pie_read_max / 2 {
            return BufferStatus::KbufFull;
        }

        self.results.push_back(IdlePageInfo { address: addr, page_type, count: 1 });
        self.last_va = addr;
        BufferStatus::Success
    }

    /// Decode a byte stream of the compact per-page encoding into run
    /// records, the cursor starting at `base_addr`. The control state
    /// itself is left unchanged.
    pub fn decode_pip_data(&mut self, data: &[u8], base_addr: u64) -> (r: EtmemResult<
        Vec<IdlePageInfo>,
    >)
        ensures
            *final(self) == *old(self),
            match spec_decode_pip(data@, base_addr) {
                Ok(records) => r is Ok && r->Ok_0@ == records,
                Err(e) => r == EtmemResult::<Vec<IdlePageInfo>>::Err(e),
            },
    {
        let mut results: Vec<IdlePageInfo> = Vec::new();
        let mut current_addr = base_addr;
        let mut i: usize = 0;

        proof {
            assert(data@.skip(0) =~= data@);
            match spec_decode_pip(data@, base_addr) {
                Ok(rest) => {
                    assert(results@ + rest =~= rest);
                },
                Err(_) => {},
            }
        }
        while i < data.len()
            invariant
                i <= data@.len(),
                match spec_decode_pip(data@.skip(i as int), current_addr) {
                    Ok(rest) => spec_decode_pip(data@, base_addr) is Ok
                        && spec_decode_pip(data@, base_addr)->Ok_0 == results@ + rest,
                    Err(e) => spec_decode_pip(data@, base_addr) == EtmemResult::<
                        Seq<IdlePageInfo>,
                    >::Err(e),
                },
            decreases data@.len() - i,
        {
            let ghost pre_rem = data@.skip(i as int);
            proof {
                assert(pre_rem.len() == data@.len() - i);
                assert(pre_rem[0] == data@[i as int]);
            }
            let byte = data[i];
            let page_type_raw = PipEncoding::extract_type(byte);
            let count = PipEncoding::extract_size(byte) + 1;

            if page_type_raw == 10 {
                if byte == PipEncoding::SET_HVA && data.len() - i > 8 {
                    let b0 = data[i + 1] as u64;
                    let b1 = data[i + 2] as u64;
                    let b2 = data[i + 3] as u64;
                    let b3 = data[i + 4] as u64;
                    let b4 = data[i + 5] as u64;
                    let b5 = data[i + 6] as u64;
                    let b6 = data[i + 7] as u64;
                    let b7 = data[i + 8] as u64;
                    let hva = b0 | (b1 << 8) | (b2 << 16) | (b3 << 24) | (b4 << 32) | (b5 << 40)
                        | (b6 << 48) | (b7 << 56);
                    proof {
                        let sub = pre_rem.subrange(1, 9);
                        assert(forall|k: int| 0 <= k < 8 ==> sub[k] == data@[i + 1 + k]);
                        assert(hva == spec_le64(sub));
                        assert(pre_rem.skip(9) =~= data@.skip(i + 9));
                    }
                    current_addr = hva;
                    i = i + 9;
                    continue;
                }
                proof {
                    assert(pre_rem.skip(1) =~= data@.skip(i + 1));
                }
                i = i + 1;
                continue;
            }

            match ProcIdlePageType::from_raw(page_type_raw) {
                Some(page_type) => {
                    let ghost pre_results = results@;
                    let rec = IdlePageInfo { address: current_addr, page_type, count };
                    results.push(rec);
                    proof {
                        lemma_page_size_bound(page_type);
                        assert(spec_page_size(page_type) * (count as u64)
                            <= 0x40000000 * 16) by (nonlinear_arith)
                            requires
                                0 < spec_page_size(page_type) <= 0x40000000,
                                count <= 16,
                        ;
                    }
                    let size = page_type.page_size() * (count as u64);
                    let ghost prev_addr = current_addr;
                    current_addr = current_addr.wrapping_add(size);
                    proof {
                        assert(current_addr == spec_advance(prev_addr, page_type, count));
                        assert(pre_rem.skip(1) =~= data@.skip(i + 1));
                        match spec_decode_pip(data@.skip(i + 1), current_addr) {
                            Ok(rest) => {
                                assert(spec_decode_pip(pre_rem, prev_addr) == EtmemResult::<
                                    Seq<IdlePageInfo>,
                                >::Ok(seq![rec] + rest));
                                assert(pre_results + (seq![rec] + rest) =~= results@ + rest);
                            },
                            Err(e) => {
                                assert(spec_decode_pip(pre_rem, prev_addr) == EtmemResult::<
                                    Seq<IdlePageInfo>,
                                >::Err(e));
                            },
                        }
                    }
                    i = i + 1;
                },
                None => {
                    return Err(EtmemError::InvalidPageType(page_type_raw));
                },
            }
        }
        proof {
            assert(data@.skip(i as int) =~= Seq::<u8>::empty());
            assert(spec_decode_pip(data@.skip(i as int), current_addr) == EtmemResult::<
                Seq<IdlePageInfo>,
            >::Ok(Seq::<IdlePageInfo>::empty()));
            assert(results@ + Seq::<IdlePageInfo>::empty() =~= results@);
        }
        Ok(results)
    }

    /// Set the next host virtual address at which scanning continues.
    pub fn set_next_hva(&mut self, hva: u64)
        ensures
            *final(self) == (PageIdleCtrl { next_hva: hva, ..*old(self) }),
    {
        self.next_hva = hva;
    }

    /// The next host virtual address at which scanning continues.
    pub fn next_hva(&self) -> (r: u64)
        ensures
            r == self.next_hva,
    {
        self.next_hva
    }

    /// Set the guest-physical to host-virtual translation offset.
    pub fn set_gpa_to_hva(&mut self, offset: u64)
        ensures
            *final(self) == (PageIdleCtrl { gpa_to_hva: offset, ..*old(self) }),
    {
        self.gpa_to_hva = offset;
    }

    /// Set the guest-physical address at which a scan resumes.
    pub fn set_restart_gpa(&mut self, gpa: u64)
        ensures
            *final(self) == (PageIdleCtrl { restart_gpa: gpa, ..*old(self) }),
    {
        self.restart_gpa = gpa;
    }

    /// The guest-physical address at which a scan resumes.
    pub fn restart_gpa(&self) -> (r: u64)
        ensures
            r == self.restart_gpa,
    {
        self.restart_gpa
    }

    /// Take the accumulated records, leaving the accumulator empty.
    pub fn take_results(&mut self) -> (r: Vec<IdlePageInfo>)
        ensures
            r@ == old(self).results@,
            final(self).results@.len() == 0,
            final(self).kpie == old(self).kpie,
            final(self).pie_read == old(self).pie_read,
            final(self).pie_read_max == old(self).pie_read_max,
            final(self).next_hva == old(self).next_hva,
            final(self).gpa_to_hva == old(self).gpa_to_hva,
            final(self).restart_gpa == old(self).restart_gpa,
            final(self).last_va == old(self).last_va,
            final(self).flags == old(self).flags,
    {
        let mut out: Vec<IdlePageInfo> = Vec::new();
        while self.results.len() > 0
            invariant
                out@ + self.results@ == old(self).results@,
                self.kpie == old(self).kpie,
                self.pie_read == old(self).pie_read,
                self.pie_read_max == old(self).pie_read_max,
                self.next_hva == old(self).next_hva,
                self.gpa_to_hva == old(self).gpa_to_hva,
                self.restart_gpa == old(self).restart_gpa,
                self.last_va == old(self).last_va,
                self.flags == old(self).flags,
            decreases self.results@.len(),
        {
            let x = self.results.pop_front().unwrap();
            out.push(x);
            proof {
                assert(out@ + self.results@ =~= old(self).results@);
            }
        }
        proof {
            assert(out@ =~= old(self).results@);
        }
        out
    }

    /// The accumulated records.
    pub fn results(&self) -> (r: &VecDeque<IdlePageInfo>)
        ensures
            r@ == self.results@,
    {
        &self.results
    }

    /// The scan flags of this control state.
    pub fn flags(&self) -> (r: ScanFlags)
        ensures
            r == self.flags,
    {
        self.flags
    }
}

impl Default for PageIdleCtrl {
    fn default() -> (r: Self)
        ensures
            r.pie_read == 0,
            r.pie_read_max == PAGE_IDLE_KBUF_SIZE,
            r.next_hva == 0,
            r.restart_gpa == 0,
            r.flags.bits == 0,
            r.results@.len() == 0,
    {
        Self::new(PAGE_IDLE_KBUF_SIZE, ScanFlags::empty())
    }
}

/// Every record of a decoded stream is a run of 1 through 16 pages of a
/// regular page type: the command code is consumed by the decoder, never
/// emitted as a record.
pub proof fn lemma_decode_record_bounds(data: Seq<u8>, addr: u64)
    ensures
        spec_decode_pip(data, addr) is Ok ==> forall|k: int|
            0 <= k < spec_decode_pip(data, addr)->Ok_0.len() ==> {
                &&& 1 <= #[trigger] spec_decode_pip(data, addr)->Ok_0[k].count <= 16
                &&& crate::types::spec_page_type_code(
                    spec_decode_pip(data, addr)->Ok_0[k].page_type,
                ) <= 9
            },
    decreases data.len(),
{
    if data.len() == 0 {
    } else {
        let byte = data[0];
        let code = spec_extract_type(byte);
        if code == 10 {
            if byte == PipEncoding::SET_HVA && data.len() > 8 {
                lemma_decode_record_bounds(data.skip(9), spec_le64(data.subrange(1, 9)));
            } else {
                lemma_decode_record_bounds(data.skip(1), addr);
            }
        } else {
            match spec_page_type_from_raw(code) {
                Some(t) => {
                    assert(byte & 0xf <= 15) by (bit_vector);
                    let count = (spec_extract_size(byte) + 1) as u8;
                    lemma_decode_record_bounds(data.skip(1), spec_advance(addr, t, count));
                },
                None => {},
            }
        }
    }
}

/// The verified state of a scan session: its configuration, the control
/// state of the ongoing scan, and the process it is bound to. The kernel
/// file itself is owned by the embedding binary, which performs the
/// positioned reads and control calls this state asks for.
#[derive(Debug)]
pub struct ScanSession {
    /// Scan configuration
    pub config: ScanConfig,
    /// Control state of the ongoing scan
    pub ctrl: PageIdleCtrl,
    /// Process being scanned
    pub pid: u32,
}

impl ScanSession {
    /// Open a session: the process ID must be non-zero and the
    /// configuration valid; the control state starts empty with the
    /// configured buffer size and flags.
    pub fn new(pid: u32, config: ScanConfig) -> (r: EtmemResult<ScanSession>)
        ensures
            r is Ok <==> (pid != 0 && config.spec_valid()),
            pid == 0 ==> r == EtmemResult::<ScanSession>::Err(EtmemError::InvalidPid),
            pid != 0 ==> match config.validate_result() {
                Ok(_) => true,
                Err(e) => r == EtmemResult::<ScanSession>::Err(e),
            },
            r is Ok ==> ({
                let s = r->Ok_0;
                &&& s.pid == pid
                &&& s.config == config
                &&& s.ctrl.flags == config.flags
                &&& s.ctrl.results@.len() == 0
                &&& s.ctrl.pie_read_max == config.buffer_size
            }),
    {
        if pid == 0 {
            return Err(EtmemError::InvalidPid);
        }
        match config.validate() {
            Err(e) => return Err(e),
            Ok(()) => {},
        }
        let ctrl = PageIdleCtrl::new(config.buffer_size, config.flags);
        Ok(ScanSession { config, ctrl, pid })
    }

    /// First half of a read: the start address must be 4096-byte aligned;
    /// on success the size of the buffer to read from the kernel is
    /// returned.
    pub fn read_prepare(&self, start_addr: u64) -> (r: EtmemResult<usize>)
        ensures
            r is Ok <==> start_addr % 4096 == 0,
            start_addr % 4096 != 0 ==> r == EtmemResult::<usize>::Err(EtmemError::InvalidAddress),
            r is Ok ==> r->Ok_0 == self.config.buffer_size,
    {
        if start_addr % 4096 != 0 {
            return Err(EtmemError::InvalidAddress);
        }
        Ok(self.config.buffer_size)
    }

    /// Second half of a read: decode the bytes the kernel returned for a
    /// positioned read at `start_addr`. A zero-byte read yields no records
    /// and no continuation; otherwise the records come from the byte
    /// decoder, and a continuation address (the end of the last record) is
    /// returned exactly when the read filled the configured buffer.
    pub fn read_finish(&mut self, start_addr: u64, data: &[u8]) -> (r: EtmemResult<
        (Vec<IdlePageInfo>, Option<u64>),
    >)
        ensures
            *final(self) == *old(self),
            data@.len() == 0 ==> r is Ok && r->Ok_0.0@ == Seq::<IdlePageInfo>::empty()
                && r->Ok_0.1 is None,
            data@.len() > 0 ==> match spec_decode_pip(data@, start_addr) {
                Ok(records) => {
                    &&& r is Ok
                    &&& r->Ok_0.0@ == records
                    &&& r->Ok_0.1 == (if data@.len() >= old(self).config.buffer_size
                        && records.len() > 0 {
                        Some(
                            spec_advance(
                                records.last().address,
                                records.last().page_type,
                                records.last().count,
                            ),
                        )
                    } else {
                        None::<u64>
                    })
                },
                Err(e) => r == EtmemResult::<(Vec<IdlePageInfo>, Option<u64>)>::Err(e),
            },
    {
        if data.len() == 0 {
            return Ok((Vec::new(), None));
        }

        let pages = match self.ctrl.decode_pip_data(data, start_addr) {
            Ok(pages) => pages,
            Err(e) => return Err(e),
        };

        let next_addr: Option<u64> = if data.len() >= self.config.buffer_size && pages.len() > 0 {
            let last = pages[pages.len() - 1];
            proof {
                lemma_decode_record_bounds(data@, start_addr);
                lemma_page_size_bound(last.page_type);
                assert(spec_page_size(last.page_type) * (last.count as u64)
                    <= 0x40000000 * 16) by (nonlinear_arith)
                    requires
                        0 < spec_page_size(last.page_type) <= 0x40000000,
                        last.count <= 16,
                ;
            }
            let size = last.page_type.page_size() * (last.count as u64);
            Some(last.address.wrapping_add(size))
        } else {
            None
        };

        Ok((pages, next_addr))
    }

    /// Check a range for a ranged read: it must be non-empty.
    pub fn range_prepare(&self, range: AddressRange) -> (r: EtmemResult<()>)
        ensures
            r is Ok <==> range.start < range.end,
            range.start >= range.end ==> r == EtmemResult::<()>::Err(EtmemError::InvalidRange),
    {
        if !range.is_valid() {
            return Err(EtmemError::InvalidRange);
        }
        Ok(())
    }

    /// Record locally that flags were added by a control call: the mirror
    /// becomes the union.
    pub fn apply_add_flags(&mut self, flags: ScanFlags)
        ensures
            final(self).config.flags.bits == old(self).config.flags.bits | flags.bits,
            final(self).config.buffer_size == old(self).config.buffer_size,
            final(self).config.walk_step == old(self).config.walk_step,
            final(self).ctrl == old(self).ctrl,
            final(self).pid == old(self).pid,
    {
        self.config.flags = self.config.flags.union(flags);
    }

    /// Record locally that flags were removed by a control call: the mirror
    /// becomes the difference.
    pub fn apply_remove_flags(&mut self, flags: ScanFlags)
        ensures
            final(self).config.flags.bits == old(self).config.flags.bits & !flags.bits,
            final(self).config.buffer_size == old(self).config.buffer_size,
            final(self).config.walk_step == old(self).config.walk_step,
            final(self).ctrl == old(self).ctrl,
            final(self).pid == old(self).pid,
    {
        self.config.flags = self.config.flags.difference(flags);
    }

    /// The session's configuration.
    pub fn config(&self) -> (r: &ScanConfig)
        ensures
            r == &self.config,
    {
        &self.config
    }

    /// The process this session scans.
    pub fn pid(&self) -> (r: u32)
        ensures
            r == self.pid,
    {
        self.pid
    }

    /// The control state of the ongoing scan.
    pub fn control(&self) -> (r: &PageIdleCtrl)
        ensures
            r == &self.ctrl,
    {
        &self.ctrl
    }

}

/// Keep the records whose start address falls within the range.
pub fn filter_in_range(pages: &Vec<IdlePageInfo>, range: AddressRange) -> (r: Vec<IdlePageInfo>)
    ensures
        r@ == pages@.filter(
            |p: IdlePageInfo| range.start <= p.address && p.address < range.end,
        ),
{
    let ghost pred = |p: IdlePageInfo| range.start <= p.address && p.address < range.end;
    let mut out: Vec<IdlePageInfo> = Vec::new();
    proof {
        reveal(Seq::filter);
        assert(pages@.subrange(0, 0) =~= Seq::<IdlePageInfo>::empty());
    }
    let mut i: usize = 0;
    while i < pages.len()
        invariant
            i <= pages@.len(),
            out@ == pages@.subrange(0, i as int).filter(pred),
            pred == (|p: IdlePageInfo| range.start <= p.address && p.address < range.end),
        decreases pages@.len() - i,
    {
        let page = pages[i];
        proof {
            reveal(Seq::filter);
            assert(pages@.subrange(0, i + 1).drop_last() =~= pages@.subrange(0, i as int));
            assert(pages@.subrange(0, i + 1).last() == page);
        }
        if page.address >= range.start && page.address < range.end {
            out.push(page);
        }
        i = i + 1;
    }
    proof {
        assert(pages@.subrange(0, pages@.len() as int) =~= pages@);
    }
    out
}

/// The cursor for the next ranged-read step: the continuation address when
/// one was returned and it still lies before the end of the range; `None`
/// stops the loop.
pub fn range_continuation(next: Option<u64>, range: AddressRange) -> (r: Option<u64>)
    ensures
        r == (if next is Some && next->0 < range.end { next } else { None::<u64> }),
{
    match next {
        Some(addr) if addr < range.end => Some(addr),
        _ => None,
    }
}

/// The bytes of a 64-bit value, little-endian.
pub open spec fn spec_le_bytes(v: u64) -> Seq<u8> {
    seq![
        (v & 0xff) as u8,
        ((v >> 8) & 0xff) as u8,
        ((v >> 16) & 0xff) as u8,
        ((v >> 24) & 0xff) as u8,
        ((v >> 32) & 0xff) as u8,
        ((v >> 40) & 0xff) as u8,
        ((v >> 48) & 0xff) as u8,
        ((v >> 56) & 0xff) as u8,
    ]
}

/// Reading the little-endian bytes of a value gives the value back.
pub proof fn lemma_le64_round_trip(v: u64)
    ensures
        spec_le64(spec_le_bytes(v)) == v,
{
    assert(((v & 0xff) as u8) as u64 | ((((v >> 8) & 0xff) as u8) as u64) << 8
        | ((((v >> 16) & 0xff) as u8) as u64) << 16 | ((((v >> 24) & 0xff) as u8) as u64) << 24
        | ((((v >> 32) & 0xff) as u8) as u64) << 32 | ((((v >> 40) & 0xff) as u8) as u64) << 40
        | ((((v >> 48) & 0xff) as u8) as u64) << 48 | ((((v >> 56) & 0xff) as u8) as u64) << 56
        == v) by (bit_vector);
}

/// Decoding a stream of plain run bytes (type codes 0 through 9) succeeds,
/// yields one record per byte, and advances the cursor by exactly the
/// run's size — the page size of the byte's type times its count — from
/// each record to the next, independent of adjacency.
pub proof fn lemma_decode_address_advance(data: Seq<u8>, base: u64)
    requires
        forall|k: int| 0 <= k < data.len() ==> #[trigger] spec_extract_type(data[k]) <= 9,
    ensures
        spec_decode_pip(data, base) is Ok,
        spec_decode_pip(data, base)->Ok_0.len() == data.len(),
        data.len() > 0 ==> spec_decode_pip(data, base)->Ok_0[0].address == base,
        forall|k: int| 0 <= k < data.len() ==> {
            &&& spec_decode_pip(data, base)->Ok_0[k].page_type == spec_page_type_from_raw(
                #[trigger] spec_extract_type(data[k]),
            )->0
            &&& spec_decode_pip(data, base)->Ok_0[k].count == spec_extract_size(data[k]) + 1
            &&& k < data.len() - 1 ==> spec_decode_pip(data, base)->Ok_0[k + 1].address
                == spec_advance(
                spec_decode_pip(data, base)->Ok_0[k].address,
                spec_decode_pip(data, base)->Ok_0[k].page_type,
                spec_decode_pip(data, base)->Ok_0[k].count,
            )
        },
    decreases data.len(),
{
    if data.len() == 0 {
    } else {
        let byte = data[0];
        let code = spec_extract_type(byte);
        assert(code <= 9);
        assert(spec_page_type_from_raw(code) is Some);
        let t = spec_page_type_from_raw(code)->0;
        assert(byte & 0xf <= 15) by (bit_vector);
        let count = (spec_extract_size(byte) + 1) as u8;
        let tail = data.skip(1);
        assert(forall|k: int| 0 <= k < tail.len()
            ==> #[trigger] spec_extract_type(tail[k]) <= 9);
        lemma_decode_address_advance(tail, spec_advance(base, t, count));
        let rest = spec_decode_pip(tail, spec_advance(base, t, count))->Ok_0;
        let rec = IdlePageInfo { address: base, page_type: t, count };
        assert(spec_decode_pip(data, base)->Ok_0 == seq![rec] + rest);
        assert forall|k: int| 0 <= k < data.len() implies {
            &&& spec_decode_pip(data, base)->Ok_0[k].page_type == spec_page_type_from_raw(
                #[trigger] spec_extract_type(data[k]),
            )->0
            &&& spec_decode_pip(data, base)->Ok_0[k].count == spec_extract_size(data[k]) + 1
            &&& k < data.len() - 1 ==> spec_decode_pip(data, base)->Ok_0[k + 1].address
                == spec_advance(
                spec_decode_pip(data, base)->Ok_0[k].address,
                spec_decode_pip(data, base)->Ok_0[k].page_type,
                spec_decode_pip(data, base)->Ok_0[k].count,
            )
        } by {
            let records = spec_decode_pip(data, base)->Ok_0;
            if k == 0 {
                assert(records[0] == rec);
                if data.len() > 1 {
                    assert(records[1] == rest[0]);
                    assert(rest[0].address == spec_advance(base, t, count));
                }
            } else {
                assert(records[k] == rest[k - 1]);
                assert(tail[k - 1] == data[k]);
                if k < data.len() - 1 {
                    assert(records[k + 1] == rest[k]);
                }
            }
        }
    }
}

/// A stream holding the cursor-relocation command, the eight little-endian
/// bytes of a value `v`, and one plain single-page byte of type code `t`
/// decodes to exactly one single-page record of that type at address `v`.
pub proof fn lemma_decode_set_hva(v: u64, t: u8, base: u64)
    requires
        t <= 9,
    ensures
        ({
            let stream = seq![PipEncoding::SET_HVA] + spec_le_bytes(v)
                + seq![spec_compose(t, 0)];
            spec_decode_pip(stream, base) == EtmemResult::<Seq<IdlePageInfo>>::Ok(
                seq![
                    IdlePageInfo {
                        address: v,
                        page_type: spec_page_type_from_raw(t)->0,
                        count: 1,
                    },
                ],
            )
        }),
{
    let stream = seq![PipEncoding::SET_HVA] + spec_le_bytes(v) + seq![spec_compose(t, 0)];
    assert(stream.len() == 10);
    assert(stream[0] == 0xa0u8);
    assert(spec_extract_type(0xa0u8) == 10) by (bit_vector);

    let sub = stream.subrange(1, 9);
    assert(sub =~= spec_le_bytes(v));
    lemma_le64_round_trip(v);

    let tail = stream.skip(9);
    assert(tail =~= seq![spec_compose(t, 0)]);
    let b = spec_compose(t, 0);
    assert(t <= 9 ==> ((((t & 0xf) << 4) | (0u8 & 0xf)) >> 4) & 0xf == t) by (bit_vector);
    assert(t <= 9 ==> (((t & 0xf) << 4) | (0u8 & 0xf)) & 0xf == 0) by (bit_vector);
    assert(spec_extract_type(b) == t);
    assert(spec_extract_size(b) == 0);
    assert(tail.skip(1) =~= Seq::<u8>::empty());
    let pt = spec_page_type_from_raw(t)->0;
    assert(spec_page_type_from_raw(t) is Some);
    let rec = IdlePageInfo { address: v, page_type: pt, count: 1 };
    assert(spec_decode_pip(tail.skip(1), spec_advance(v, pt, 1)) == EtmemResult::<
        Seq<IdlePageInfo>,
    >::Ok(Seq::<IdlePageInfo>::empty()));
    assert(tail.len() == 1 && tail[0] == b);
    assert(spec_decode_pip(tail, v) == EtmemResult::<Seq<IdlePageInfo>>::Ok(seq![rec]
        + Seq::<IdlePageInfo>::empty()));
    assert(seq![rec] + Seq::<IdlePageInfo>::empty() =~= seq![rec]);
    assert(spec_decode_pip(stream, base) == spec_decode_pip(tail, v));
}

} // verus!
