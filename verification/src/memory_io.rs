//! An in-memory I/O back end: a byte buffer with a position, read and written
//! like a file.
use vstd::prelude::*;
use crate::io::{IOCapabilities, IOFactory, IOMode, IoError, InputIO, OutputIO, SeekableIO, IO};
use crate::strs::{owned, push_str};

verus! {

/// The UTF-8 encoding of `c`.
pub open spec fn utf8_char(c: char) -> Seq<u8> {
    let u = c as u32;
    if u < 0x80 {
        seq![u as u8]
    } else if u < 0x800 {
        seq![(0xC0 + u / 64) as u8, (0x80 + u % 64) as u8]
    } else if u < 0x10000 {
        seq![(0xE0 + u / 4096) as u8, (0x80 + (u / 64) % 64) as u8, (0x80 + u % 64) as u8]
    } else {
        seq![
            (0xF0 + u / 262144) as u8,
            (0x80 + (u / 4096) % 64) as u8,
            (0x80 + (u / 64) % 64) as u8,
            (0x80 + u % 64) as u8,
        ]
    }
}

/// The UTF-8 encoding of `s`.
pub open spec fn utf8_encode(s: Seq<char>) -> Seq<u8>
    decreases s.len(),
{
    if s.len() == 0 {
        Seq::empty()
    } else {
        utf8_encode(s.drop_last()) + utf8_char(s.last())
    }
}

/// The text of the error `str::from_utf8` reports for bytes that are not UTF-8.
pub uninterp spec fn utf8_error_text(b: Seq<u8>) -> Seq<char>;

/// The encoding of a character is the Unicode scalar encoding of its code point.
proof fn lemma_utf8_char_scalar(c: char)
    ensures
        utf8_char(c) == vstd::utf8::encode_scalar(c as u32),
{
    let u = c as u32;
    if u < 0x80 {
        assert((u as u8) == ((u & 0x7F) as u8)) by (bit_vector)
            requires
                u < 0x80,
        ;
    } else if u < 0x800 {
        assert(((0xC0 + u / 64) as u8) == (0xC0 | ((u >> 6) & 0x1F) as u8) && ((0x80 + u % 64) as u8) == (
        0x80 | (u & 0x3F) as u8)) by (bit_vector)
            requires
                0x80 <= u < 0x800,
        ;
    } else if u < 0x10000 {
        assert(((0xE0 + u / 4096) as u8) == (0xE0 | ((u >> 12) & 0x0F) as u8) && ((0x80 + (u / 64) % 64) as u8)
            == (0x80 | ((u >> 6) & 0x3F) as u8) && ((0x80 + u % 64) as u8) == (0x80 | (u & 0x3F) as u8))
            by (bit_vector)
            requires
                0x800 <= u < 0x10000,
        ;
    } else {
        assert(((0xF0 + u / 262144) as u8) == (0xF0 | ((u >> 18) & 0x7) as u8) && ((0x80 + (u / 4096) % 64) as u8)
            == (0x80 | ((u >> 12) & 0x3F) as u8) && ((0x80 + (u / 64) % 64) as u8) == (0x80 | ((u >> 6) & 0x3F) as u8)
            && ((0x80 + u % 64) as u8) == (0x80 | (u & 0x3F) as u8)) by (bit_vector)
            requires
                0x10000 <= u <= 0x10FFFF,
        ;
    }
}

/// `utf8_encode` is vstd's `encode_utf8`.
proof fn lemma_encode_agrees(s: Seq<char>)
    ensures
        utf8_encode(s) == vstd::utf8::encode_utf8(s),
    decreases s.len(),
{
    if s.len() > 0 {
        lemma_encode_front(s);
        lemma_utf8_char_scalar(s[0]);
        lemma_encode_agrees(s.drop_first());
    }
}

/// The UTF-8 bytes of `s`.
fn bytes_of(s: &str) -> (r: Vec<u8>)
    ensures
        r@ == utf8_encode(s@),
{
    let b = s.as_bytes();
    proof {
        lemma_encode_agrees(s@);
    }
    vstd::slice::slice_to_vec(b)
}

/// Decodes `b` with `str::from_utf8`: the text whose encoding `b` is, or, when `b`
/// encodes no text, the error's message.
#[verifier::external_body]
fn decode_utf8(b: &[u8]) -> (r: Result<String, String>)
    ensures
        match r {
            Ok(s) => utf8_encode(s@) == b@,
            Err(m) => (forall|s: Seq<char>| utf8_encode(s) != b@) && m@ == utf8_error_text(b@),
        },
{
    match std::str::from_utf8(b) {
        Ok(s) => Ok(s.to_string()),
        Err(e) => Err(format!("{}", e)),
    }
}

/// `data` written into `buf` at `pos`, as a cursor over a byte vector writes: the
/// gap up to `pos` is filled with zeros, and the bytes from `pos` on are replaced
/// (the buffer grows when the data runs past its end).
pub open spec fn write_at(buf: Seq<u8>, pos: nat, data: Seq<u8>) -> Seq<u8> {
    let padded = if pos > buf.len() {
        buf + Seq::new((pos - buf.len()) as nat, |i: int| 0u8)
    } else {
        buf
    };
    padded.take(pos as int) + data + if pos + data.len() < padded.len() {
        padded.skip(pos + data.len() as int)
    } else {
        Seq::empty()
    }
}

/// The capabilities of a memory buffer opened in `mode`.
pub open spec fn memory_capabilities(mode: IOMode) -> IOCapabilities {
    IOCapabilities {
        supports_input: mode == IOMode::Read || mode == IOMode::ReadWrite,
        supports_output: mode == IOMode::Write || mode == IOMode::Append || mode == IOMode::ReadWrite,
        supports_sync: true,
        supports_async: false,
        supports_seek: true,
        supports_filtering: false,
    }
}

fn capabilities_of(mode: IOMode) -> (r: IOCapabilities)
    ensures
        r == memory_capabilities(mode),
{
    IOCapabilities {
        supports_input: matches!(mode, IOMode::Read | IOMode::ReadWrite),
        supports_output: matches!(mode, IOMode::Write | IOMode::Append | IOMode::ReadWrite),
        supports_sync: true,
        supports_async: false,
        supports_seek: true,
        supports_filtering: false,
    }
}

/// The abstract state of a memory buffer.
pub struct MemoryState {
    pub data: Seq<u8>,
    pub position: u64,
    pub mode: IOMode,
    pub closed: bool,
}

/// Where a write starts: at the end in append mode, at the position otherwise.
pub open spec fn write_start(m: MemoryState) -> nat {
    if m.mode == IOMode::Append {
        m.data.len()
    } else {
        m.position as nat
    }
}

/// The buffer after `bytes` are written.
pub open spec fn after_write(m: MemoryState, bytes: Seq<u8>) -> MemoryState {
    MemoryState {
        data: write_at(m.data, write_start(m), bytes),
        position: (write_start(m) + bytes.len()) as u64,
        ..m
    }
}

/// The index of the first newline at or after `from`, if any.
pub open spec fn newline_from(data: Seq<u8>, from: int) -> Option<int> {
    if exists|i: int| from <= i < data.len() && data[i] == 10u8 {
        Some(choose|i: int| from <= i < data.len() && data[i] == 10u8 && forall|j: int| from <= j < i ==> data[j] != 10u8)
    } else {
        None
    }
}

/// An in-memory I/O back end.
#[derive(Debug)]
pub struct MemoryIO {
    data: Vec<u8>,
    position: u64,
    mode: IOMode,
    closed: bool,
}

impl View for MemoryIO {
    type V = MemoryState;

    closed spec fn view(&self) -> MemoryState {
        MemoryState { data: self.data@, position: self.position, mode: self.mode, closed: self.closed }
    }
}

impl MemoryIO {
    /// A buffer holding `initial_data` (or nothing), at position 0, opened in `mode`.
    pub fn new(initial_data: Option<Vec<u8>>, mode: IOMode) -> (r: Self)
        ensures
            r@ == (MemoryState {
                data: match initial_data {
                    Some(d) => d@,
                    None => Seq::empty(),
                },
                position: 0,
                mode,
                closed: false,
            }),
    {
        let data = match initial_data {
            Some(d) => d,
            None => Vec::new(),
        };
        MemoryIO { data, position: 0, mode, closed: false }
    }

    /// A copy of the buffer's bytes.
    pub fn get_contents(&self) -> (r: Vec<u8>)
        ensures
            r@ == self@.data,
    {
        self.data.clone()
    }

    /// The buffer's bytes as text, when they are UTF-8.
    pub fn get_contents_utf8(&self) -> (r: Result<String, IoError>)
        ensures
            match r {
                Ok(s) => utf8_encode(s@) == self@.data,
                Err(e) => (forall|s: Seq<char>| utf8_encode(s) != self@.data) && e.message@
                    == "Memory buffer contains invalid UTF-8: "@ + utf8_error_text(self@.data),
            },
    {
        match decode_utf8(self.data.as_slice()) {
            Ok(s) => Ok(s),
            Err(m) => {
                let mut msg = owned("Memory buffer contains invalid UTF-8: ");
                push_str(&mut msg, m.as_str());
                Err(IoError { message: msg })
            },
        }
    }

    /// Writes `bytes` where a write starts (see `write_start`); refused unless the
    /// buffer is open for output. Returns the number of bytes written.
    pub fn write(&mut self, bytes: &[u8]) -> (r: Result<usize, IoError>)
        requires
            write_start(old(self)@) + bytes@.len() <= u64::MAX,
            write_start(old(self)@) + bytes@.len() <= usize::MAX,
        ensures
            (old(self)@.closed || !memory_capabilities(old(self)@.mode).supports_output) ==> (r matches Err(e)
                && e.message@ == "Cannot write to memory buffer"@ && final(self)@ == old(self)@),
            !(old(self)@.closed || !memory_capabilities(old(self)@.mode).supports_output) ==> (r == Ok::<
                usize,
                IoError,
            >(bytes@.len() as usize) && final(self)@ == after_write(old(self)@, bytes@)),
    {
        if self.closed || !capabilities_of(self.mode).supports_output {
            return Err(IoError::new("Cannot write to memory buffer"));
        }
        self.write_bytes(bytes);
        Ok(bytes.len())
    }

    fn write_bytes(&mut self, bytes: &[u8])
        requires
            write_start(old(self)@) + bytes@.len() <= u64::MAX,
            write_start(old(self)@) + bytes@.len() <= usize::MAX,
        ensures
            final(self)@ == after_write(old(self)@, bytes@),
    {
        let start: usize = if self.mode == IOMode::Append {
            self.data.len()
        } else {
            self.position as usize
        };
        let ghost d0 = self.data@;
        assert(self.data@ =~= d0 + Seq::new(0, |i: int| 0u8));
        while self.data.len() < start
            invariant
                d0.len() <= self.data@.len(),
                self.data@.len() <= start || self.data@.len() == d0.len(),
                self.mode == old(self).mode,
                self.closed == old(self).closed,
                start == write_start(old(self)@),
                d0 == old(self).data@,
                self.data@ == d0 + Seq::new((self.data@.len() - d0.len()) as nat, |i: int| 0u8),
            decreases start - self.data@.len(),
        {
            let ghost before = self.data@;
            self.data.push(0u8);
            assert(self.data@ =~= d0 + Seq::new((self.data@.len() - d0.len()) as nat, |i: int| 0u8));
        }
        let ghost padded = self.data@;
        assert(padded =~= if start > d0.len() {
            d0 + Seq::new((start - d0.len()) as nat, |i: int| 0u8)
        } else {
            d0
        });
        let mut i: usize = 0;
        while i < bytes.len()
            invariant
                i <= bytes@.len(),
                start + bytes@.len() <= usize::MAX,
                padded.len() >= start,
                self.mode == old(self).mode,
                self.closed == old(self).closed,
                self.data@.len() == if start + i < padded.len() {
                    padded.len() as int
                } else {
                    start + i
                },
                forall|k: int| 0 <= k < start ==> self.data@[k] == padded[k],
                forall|k: int| start <= k < start + i ==> self.data@[k] == bytes@[k - start],
                forall|k: int| start + i <= k < self.data@.len() ==> self.data@[k] == padded[k],
            decreases bytes@.len() - i,
        {
            let at = start + i;
            if at < self.data.len() {
                self.data.set(at, bytes[i]);
            } else {
                self.data.push(bytes[i]);
            }
            i = i + 1;
        }
        proof {
            let w = write_at(d0, start as nat, bytes@);
            assert(self.data@ =~= w);
        }
        self.position = (start + bytes.len()) as u64;
    }

    /// Reads up to `max` bytes from the position on; refused unless the buffer is
    /// open for input.
    pub fn read(&mut self, max: usize) -> (r: Result<Vec<u8>, IoError>)
        requires
        ensures
            (old(self)@.closed || !memory_capabilities(old(self)@.mode).supports_input) ==> (r matches Err(e)
                && e.message@ == "Cannot read from memory buffer"@ && final(self)@ == old(self)@),
            !(old(self)@.closed || !memory_capabilities(old(self)@.mode).supports_input) ==> (r matches Ok(v)
                && {
                let p = old(self)@.position as int;
                let n = old(self)@.data.len() as int;
                let k = if p >= n {
                    0
                } else if n - p < max {
                    n - p
                } else {
                    max as int
                };
                v@ == old(self)@.data.subrange(if p >= n { n } else { p }, if p >= n { n } else { p } + k)
                    && final(self)@ == (MemoryState { position: (p + k) as u64, ..old(self)@ })
            }),
    {
        if self.closed || !capabilities_of(self.mode).supports_input {
            return Err(IoError::new("Cannot read from memory buffer"));
        }
        let n = self.data.len();
        if self.position >= n as u64 {
            let v: Vec<u8> = Vec::new();
            assert(v@ =~= self.data@.subrange(n as int, n as int));
            return Ok(v);
        }
        let p = self.position as usize;
        let k = if n - p < max {
            n - p
        } else {
            max
        };
        let mut v: Vec<u8> = Vec::new();
        let mut i: usize = 0;
        while i < k
            invariant
                i <= k,
                p + k <= n,
                n == self.data@.len(),
                v@ == self.data@.subrange(p as int, p + i),
            decreases k - i,
        {
            v.push(self.data[p + i]);
            i = i + 1;
            assert(v@ =~= self.data@.subrange(p as int, p + i));
        }
        self.position = (p + k) as u64;
        Ok(v)
    }
}

impl IO for MemoryIO {
    fn name(&self) -> (r: &str)
        ensures
            r@ == "memory_io"@,
    {
        "memory_io"
    }

    fn capabilities(&self) -> (r: IOCapabilities)
        ensures
            r == memory_capabilities(self@.mode),
    {
        capabilities_of(self.mode)
    }

    fn is_ready(&self) -> (r: bool)
        ensures
            r == !self@.closed,
    {
        !self.closed
    }

    fn close(&mut self) -> (r: Result<(), IoError>)
        ensures
            r is Ok,
            final(self)@ == (MemoryState { closed: true, ..old(self)@ }),
    {
        self.closed = true;
        Ok(())
    }
}

/// The line `read_line` reads from `m` when the buffer is readable and the
/// position is inside the data: the bytes from the position up to the next
/// newline (or the end), and the position after that newline.
pub open spec fn line_span(m: MemoryState) -> (int, int) {
    let p = m.position as int;
    match newline_from(m.data, p) {
        Some(e) => (e, e + 1),
        None => (m.data.len() as int, m.data.len() as int),
    }
}

/// Whether the buffer can be read: open, and opened for input.
pub open spec fn readable(m: MemoryState) -> bool {
    !m.closed && memory_capabilities(m.mode).supports_input
}

/// Whether the buffer can be written: open, and opened for output.
pub open spec fn writable(m: MemoryState) -> bool {
    !m.closed && memory_capabilities(m.mode).supports_output
}

/// Whether a buffer can reach `end`: the end fits both a position and an index.
pub open spec fn room_for(end: nat) -> bool {
    end <= u64::MAX && end <= usize::MAX
}

fn find_newline(data: &Vec<u8>, from: usize) -> (r: Option<usize>)
    requires
        from <= data@.len(),
    ensures
        r matches Some(e) ==> from <= e < data@.len(),
        match r {
            Some(e) => newline_from(data@, from as int) == Some(e as int),
            None => newline_from(data@, from as int) is None,
        },
{
    let mut i = from;
    while i < data.len()
        invariant
            from <= i <= data@.len(),
            forall|j: int| from <= j < i ==> data@[j] != 10u8,
        decreases data@.len() - i,
    {
        if data[i] == 10u8 {
            proof {
                let d = data@;
                let c = choose|c: int| from <= c < d.len() && d[c] == 10u8 && forall|j: int| from <= j < c ==> d[j] != 10u8;
                if c < i {
                    assert(d[c] != 10u8);
                } else if c > i {
                    assert(d[i as int] != 10u8);
                }
            }
            return Some(i);
        }
        i = i + 1;
    }
    None
}

impl InputIO for MemoryIO {
    /// Reads the text up to the next newline (or the end), and moves past the
    /// newline; at or past the end it reads an empty line.
    fn read_line(&mut self) -> (r: Result<String, IoError>)
        ensures
            old(self)@.closed ==> (r matches Err(e) && e.message@ == "Cannot read from closed memory buffer"@),
            !old(self)@.closed && !memory_capabilities(old(self)@.mode).supports_input ==> (r matches Err(e)
                && e.message@ == "Memory buffer not opened for reading"@),
            r is Err ==> final(self)@ == old(self)@,
            readable(old(self)@) && old(self)@.position >= old(self)@.data.len() ==> (r matches Ok(s) && s@.len()
                == 0 && final(self)@ == old(self)@),
            readable(old(self)@) && old(self)@.position < old(self)@.data.len() ==> {
                let (end, next) = line_span(old(self)@);
                let bytes = old(self)@.data.subrange(old(self)@.position as int, end);
                match r {
                    Ok(s) => utf8_encode(s@) == bytes && final(self)@ == (MemoryState {
                        position: next as u64,
                        ..old(self)@
                    }),
                    Err(e) => (forall|t: Seq<char>| utf8_encode(t) != bytes) && e.message@ == "Invalid UTF-8 in line"@,
                }
            },
    {
        if self.closed {
            return Err(IoError::new("Cannot read from closed memory buffer"));
        }
        if !capabilities_of(self.mode).supports_input {
            return Err(IoError::new("Memory buffer not opened for reading"));
        }
        let n = self.data.len();
        if self.position >= n as u64 {
            return Ok(String::new());
        }
        let p = self.position as usize;
        let (end, next) = match find_newline(&self.data, p) {
            Some(e) => (e, e + 1),
            None => (n, n),
        };
        proof {
            if newline_from(self.data@, p as int) is None {
            } else {
                let c = newline_from(self.data@, p as int).unwrap();
                assert(c == end);
            }
        }
        let slice = crate::strs::sub_bytes(self.data.as_slice(), p, end);
        match decode_utf8(slice.as_slice()) {
            Ok(s) => {
                self.position = next as u64;
                Ok(s)
            },
            Err(_) => Err(IoError::new("Invalid UTF-8 in line")),
        }
    }

    fn has_data_available(&self) -> (r: bool)
        ensures
            r == (readable(self@) && self@.position < self@.data.len()),
    {
        if self.closed || !capabilities_of(self.mode).supports_input {
            return false;
        }
        self.position < self.data.len() as u64
    }
}

impl OutputIO for MemoryIO {
    /// Writes the UTF-8 bytes of `line` and a newline where a write starts. A write
    /// that would take the buffer past the range of positions is refused.
    fn write_line(&mut self, line: &str) -> (r: Result<(), IoError>)
        ensures
            old(self)@.closed ==> (r matches Err(e) && e.message@ == "Cannot write to closed memory buffer"@),
            !old(self)@.closed && !memory_capabilities(old(self)@.mode).supports_output ==> (r matches Err(e)
                && e.message@ == "Memory buffer not opened for writing"@),
            r is Err ==> final(self)@ == old(self)@,
            writable(old(self)@) && room_for(write_start(old(self)@) + utf8_encode(line@).len() + 1) ==> (r is Ok
                && final(self)@ == after_write(after_write(old(self)@, utf8_encode(line@)), seq![10u8])),
            writable(old(self)@) && !room_for(write_start(old(self)@) + utf8_encode(line@).len() + 1) ==> (r matches Err(
                e,
            ) && e.message@ == "Memory buffer position out of range"@),
    {
        if self.closed {
            return Err(IoError::new("Cannot write to closed memory buffer"));
        }
        if !capabilities_of(self.mode).supports_output {
            return Err(IoError::new("Memory buffer not opened for writing"));
        }
        let bytes = bytes_of(line);
        let start: u64 = if self.mode == IOMode::Append {
            self.data.len() as u64
        } else {
            self.position
        };
        let fits = match start.checked_add(bytes.len() as u64) {
            Some(end) => end < u64::MAX && end < usize::MAX as u64,
            None => false,
        };
        if !fits {
            return Err(IoError::new("Memory buffer position out of range"));
        }
        self.write_bytes(bytes.as_slice());
        let newline: [u8; 1] = [10u8];
        self.write_bytes(newline.as_slice());
        assert(newline@ =~= seq![10u8]);
        Ok(())
    }

    fn flush_output(&mut self) -> (r: Result<(), IoError>)
        ensures
            r is Ok,
            final(self)@ == old(self)@,
    {
        Ok(())
    }
}

impl SeekableIO for MemoryIO {
    /// Moves to `position`; refused once closed.
    fn seek(&mut self, position: u64) -> (r: Result<u64, IoError>)
        ensures
            old(self)@.closed ==> (r matches Err(e) && e.message@ == "Cannot seek in closed memory buffer"@
                && final(self)@ == old(self)@),
            !old(self)@.closed ==> (r == Ok::<u64, IoError>(position) && final(self)@ == (MemoryState {
                position,
                ..old(self)@
            })),
    {
        if self.closed {
            return Err(IoError::new("Cannot seek in closed memory buffer"));
        }
        self.position = position;
        Ok(position)
    }

    /// The position; refused once closed.
    fn position(&self) -> (r: Result<u64, IoError>)
        ensures
            self@.closed ==> (r matches Err(e) && e.message@ == "Cannot get position of closed memory buffer"@),
            !self@.closed ==> r == Ok::<u64, IoError>(self@.position),
    {
        if self.closed {
            return Err(IoError::new("Cannot get position of closed memory buffer"));
        }
        Ok(self.position)
    }

    /// The number of bytes; refused once closed.
    fn size(&self) -> (r: Result<u64, IoError>)
        ensures
            self@.closed ==> (r matches Err(e) && e.message@ == "Cannot get size of closed memory buffer"@),
            !self@.closed ==> r == Ok::<u64, IoError>(self@.data.len() as u64),
    {
        if self.closed {
            return Err(IoError::new("Cannot get size of closed memory buffer"));
        }
        Ok(self.data.len() as u64)
    }
}

/// An I/O factory whose back ends are all in memory.
#[derive(Debug, Clone, Copy, Default)]
pub struct DefaultIOFactory;

impl IOFactory for DefaultIOFactory {
    type Backend = MemoryIO;

    /// A memory buffer standing for the file at `path`: empty, whatever the path.
    fn create_file_io(&self, path: &str, mode: IOMode) -> (r: Result<MemoryIO, IoError>)
        ensures
            r matches Ok(m) && m@ == (MemoryState { data: Seq::empty(), position: 0, mode, closed: false }),
    {
        Ok(MemoryIO::new(None, mode))
    }

    /// A memory buffer holding `initial_data`.
    fn create_memory_io(&self, initial_data: Option<Vec<u8>>, mode: IOMode) -> (r: Result<MemoryIO, IoError>)
        ensures
            r matches Ok(m) && m@ == (MemoryState {
                data: match initial_data {
                    Some(d) => d@,
                    None => Seq::empty(),
                },
                position: 0,
                mode,
                closed: false,
            }),
    {
        Ok(MemoryIO::new(initial_data, mode))
    }

    /// A memory buffer holding the UTF-8 bytes of `initial_data`.
    fn create_string_io(&self, initial_data: Option<String>, mode: IOMode) -> (r: Result<MemoryIO, IoError>)
        ensures
            r matches Ok(m) && m@ == (MemoryState {
                data: match initial_data {
                    Some(s) => utf8_encode(s@),
                    None => Seq::empty(),
                },
                position: 0,
                mode,
                closed: false,
            }),
    {
        let data = match &initial_data {
            Some(s) => Some(bytes_of(s.as_str())),
            None => None,
        };
        Ok(MemoryIO::new(data, mode))
    }

    /// A memory buffer holding the UTF-8 bytes of `source`; the configuration is
    /// not used.
    fn create_custom_io(&self, source: &str, config: &[(&str, &str)], mode: IOMode) -> (r: Result<
        MemoryIO,
        IoError,
    >)
        ensures
            r matches Ok(m) && m@ == (MemoryState { data: utf8_encode(source@), position: 0, mode, closed: false }),
    {
        Ok(MemoryIO::new(Some(bytes_of(source)), mode))
    }
}

proof fn lemma_encode_concat(a: Seq<char>, b: Seq<char>)
    ensures
        utf8_encode(a + b) == utf8_encode(a) + utf8_encode(b),
    decreases b.len(),
{
    if b.len() == 0 {
        assert(a + b =~= a);
        assert(utf8_encode(a) + utf8_encode(b) =~= utf8_encode(a));
    } else {
        lemma_encode_concat(a, b.drop_last());
        assert((a + b).drop_last() =~= a + b.drop_last());
        assert((a + b).last() == b.last());
        assert(utf8_encode(a) + utf8_encode(b) =~= utf8_encode(a) + utf8_encode(b.drop_last()) + utf8_char(b.last()));
    }
}

proof fn lemma_encode_front(s: Seq<char>)
    requires
        s.len() > 0,
    ensures
        utf8_encode(s) == utf8_char(s[0]) + utf8_encode(s.drop_first()),
{
    lemma_encode_concat(seq![s[0]], s.drop_first());
    assert(seq![s[0]] + s.drop_first() =~= s);
    assert(seq![s[0]].drop_last() =~= Seq::<char>::empty());
    assert(seq![s[0]].last() == s[0]);
    assert(utf8_encode(seq![s[0]]) == utf8_encode(Seq::<char>::empty()) + utf8_char(s[0]));
    assert(utf8_encode(seq![s[0]]) =~= utf8_char(s[0]));
}

/// The class of a UTF-8 lead byte: how many bytes its character takes.
spec fn lead_class(b: u8) -> nat {
    if b < 0x80 {
        1
    } else if 0xC0 <= b < 0xE0 {
        2
    } else if 0xE0 <= b < 0xF0 {
        3
    } else {
        4
    }
}

proof fn lemma_char_bytes(c: char)
    ensures
        1 <= utf8_char(c).len() <= 4,
        lead_class(utf8_char(c)[0]) == utf8_char(c).len(),
        forall|i: int| 1 <= i < utf8_char(c).len() ==> 0x80 <= #[trigger] utf8_char(c)[i] < 0xC0,
        utf8_char(c).len() > 1 ==> utf8_char(c)[0] >= 0xC0,
        (c as u32) < 0x80 ==> utf8_char(c) == seq![(c as u32) as u8],
{
    let u = c as u32;
    if u >= 0x80 && u < 0x800 {
        assert(2 <= u / 64 < 32) by (nonlinear_arith)
            requires
                0x80 <= u < 0x800,
        ;
        assert(u % 64 < 64) by (nonlinear_arith);
    } else if u >= 0x800 && u < 0x10000 {
        assert(u / 4096 < 16) by (nonlinear_arith)
            requires
                u < 0x10000,
        ;
        assert((u / 64) % 64 < 64) by (nonlinear_arith);
        assert(u % 64 < 64) by (nonlinear_arith);
    } else if u >= 0x10000 {
        assert(u <= 0x10FFFF);
        assert(u / 262144 < 5) by (nonlinear_arith)
            requires
                u <= 0x10FFFF,
        ;
        assert((u / 4096) % 64 < 64) by (nonlinear_arith);
        assert((u / 64) % 64 < 64) by (nonlinear_arith);
        assert(u % 64 < 64) by (nonlinear_arith);
    }
}

proof fn lemma_char_prefix(x: char, y: char, xs: Seq<u8>, ys: Seq<u8>)
    requires
        utf8_char(x) + xs == utf8_char(y) + ys,
    ensures
        x == y,
        xs == ys,
{
    lemma_char_bytes(x);
    lemma_char_bytes(y);
    let bx = utf8_char(x);
    let by_ = utf8_char(y);
    let both = utf8_char(x) + xs;
    assert(both[0] == bx[0]);
    assert(both[0] == by_[0]);
    assert(bx.len() == by_.len());
    let n = bx.len() as int;
    assert forall|i: int| 0 <= i < n implies bx[i] == by_[i] by {
        assert(both[i] == bx[i]);
        assert((utf8_char(y) + ys)[i] == by_[i]);
    }
    let u = x as u32;
    let v = y as u32;
    if n == 1 {
        assert(u == v);
    } else if n == 2 {
        assert(u / 64 == v / 64);
        assert(u % 64 == v % 64);
        assert(u == v) by (nonlinear_arith)
            requires
                u / 64 == v / 64,
                u % 64 == v % 64,
        ;
    } else if n == 3 {
        assert(u / 4096 == v / 4096);
        assert((u / 64) % 64 == (v / 64) % 64);
        assert(u % 64 == v % 64);
        assert(u == v) by (nonlinear_arith)
            requires
                u / 4096 == v / 4096,
                (u / 64) % 64 == (v / 64) % 64,
                u % 64 == v % 64,
        ;
    } else {
        assert(u / 262144 == v / 262144);
        assert((u / 4096) % 64 == (v / 4096) % 64);
        assert((u / 64) % 64 == (v / 64) % 64);
        assert(u % 64 == v % 64);
        assert(u == v) by (nonlinear_arith)
            requires
                u / 262144 == v / 262144,
                (u / 4096) % 64 == (v / 4096) % 64,
                (u / 64) % 64 == (v / 64) % 64,
                u % 64 == v % 64,
        ;
    }
    assert(xs =~= both.skip(n));
    assert(ys =~= (utf8_char(y) + ys).skip(n));
}

/// Different texts have different encodings.
pub proof fn lemma_encode_injective(a: Seq<char>, b: Seq<char>)
    requires
        utf8_encode(a) == utf8_encode(b),
    ensures
        a == b,
    decreases a.len(),
{
    if a.len() == 0 {
        if b.len() > 0 {
            lemma_encode_front(b);
            lemma_char_bytes(b[0]);
        }
        assert(b =~= a);
    } else {
        lemma_encode_front(a);
        lemma_char_bytes(a[0]);
        if b.len() == 0 {
            assert(false);
        }
        lemma_encode_front(b);
        lemma_char_prefix(a[0], b[0], utf8_encode(a.drop_first()), utf8_encode(b.drop_first()));
        lemma_encode_injective(a.drop_first(), b.drop_first());
        assert(a =~= seq![a[0]] + a.drop_first());
        assert(b =~= seq![b[0]] + b.drop_first());
    }
}

/// Whether `s` holds no line feed (U+000A).
pub open spec fn no_line_feed(s: Seq<char>) -> bool {
    forall|i: int| 0 <= i < s.len() ==> (#[trigger] s[i] as u32) != 0x0A
}

/// The encoding of text without line feeds holds no newline byte.
proof fn lemma_encode_no_newline(s: Seq<char>)
    requires
        no_line_feed(s),
    ensures
        forall|i: int| 0 <= i < utf8_encode(s).len() ==> #[trigger] utf8_encode(s)[i] != 10u8,
    decreases s.len(),
{
    if s.len() > 0 {
        let t = s.drop_last();
        assert(no_line_feed(t)) by {
            assert forall|k: int| 0 <= k < t.len() implies (#[trigger] t[k] as u32) != 0x0A by {
                assert(t[k] == s[k]);
            }
        }
        lemma_encode_no_newline(t);
        let c = s.last();
        assert((c as u32) != 0x0A) by {
            assert(s[s.len() - 1] == c);
        }
        lemma_char_bytes(c);
        let e = utf8_encode(s);
        assert(e == utf8_encode(t) + utf8_char(c));
        assert forall|i: int| 0 <= i < e.len() implies #[trigger] e[i] != 10u8 by {
            if i >= utf8_encode(t).len() {
                let j = i - utf8_encode(t).len();
                assert(e[i] == utf8_char(c)[j]);
            } else {
                assert(e[i] == utf8_encode(t)[i]);
            }
        }
    }
}

/// What a read gives back of a write: in a buffer open to read and write, a line
/// without line feeds written at the position is read back whole once the
/// position is set back to where it was written: the bytes up to the next newline
/// are exactly its encoding, which no other text has, and reading moves past the
/// newline.
pub proof fn law_read_back_written_line(m: MemoryState, line: Seq<char>)
    requires
        m.mode == IOMode::ReadWrite,
        !m.closed,
        m.position <= m.data.len(),
        no_line_feed(line),
        room_for((m.position + utf8_encode(line).len() + 1) as nat),
    ensures
        ({
            let written = after_write(after_write(m, utf8_encode(line)), seq![10u8]);
            let back = MemoryState { position: m.position, ..written };
            let (end, next) = line_span(back);
            &&& readable(back)
            &&& back.position < back.data.len()
            &&& end == m.position + utf8_encode(line).len()
            &&& next == end + 1
            &&& back.data.subrange(m.position as int, end) == utf8_encode(line)
            &&& forall|s: Seq<char>| utf8_encode(s) == back.data.subrange(m.position as int, end) ==> s == line
        }),
{
    let e = utf8_encode(line);
    let p = m.position as int;
    let m1 = after_write(m, e);
    let written = after_write(m1, seq![10u8]);
    let back = MemoryState { position: m.position, ..written };
    assert(write_start(m) == p);
    assert(m1.data.len() >= p + e.len());
    assert(forall|i: int| 0 <= i < e.len() ==> m1.data[p + i] == e[i]);
    assert(write_start(m1) == p + e.len());
    let d = written.data;
    assert(d.len() >= p + e.len() + 1);
    assert(forall|i: int| 0 <= i < p + e.len() ==> d[i] == m1.data[i]);
    assert(d[p + e.len()] == 10u8);
    lemma_encode_no_newline(line);
    assert forall|j: int| p <= j < p + e.len() implies d[j] != 10u8 by {
        assert(d[j] == m1.data[j]);
        assert(m1.data[p + (j - p)] == e[j - p]);
    }
    let q = p + e.len();
    assert(exists|i: int| p <= i < d.len() && d[i] == 10u8);
    let c = choose|i: int| p <= i < d.len() && d[i] == 10u8 && forall|j: int| p <= j < i ==> d[j] != 10u8;
    if c < q {
        assert(d[c] != 10u8);
    } else if c > q {
        assert(d[q] != 10u8);
    }
    assert(newline_from(d, p) == Some(q));
    assert(d.subrange(p, q) =~= e);
    assert forall|s: Seq<char>| utf8_encode(s) == d.subrange(p, q) implies s == line by {
        lemma_encode_injective(s, line);
    }
}

proof fn lemma_utf8_bytes_encode(s: Seq<char>)
    ensures
        crate::bars::utf8_bytes(s) == utf8_encode(s).len(),
    decreases s.len(),
{
    if s.len() > 0 {
        lemma_utf8_bytes_encode(s.drop_last());
    }
}

/// The byte count the library gives a text (used for widths and padding) is the
/// length of the text's UTF-8 encoding, what `str::len` reports; a character
/// takes as many bytes as its UTF-8 encoding.
pub proof fn law_utf8_byte_count(s: Seq<char>, c: char)
    ensures
        crate::bars::utf8_bytes(s) == vstd::utf8::encode_utf8(s).len(),
        crate::window_base::utf8_len(c) == vstd::utf8::encode_scalar(c as u32).len(),
{
    lemma_utf8_bytes_encode(s);
    lemma_encode_agrees(s);
    lemma_utf8_char_scalar(c);
}

} // verus!
