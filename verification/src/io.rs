//! Output buffers and writers, and the capabilities and modes of I/O back ends.
use vstd::prelude::*;
use crate::strs::{owned, push_str, str_eq, strings};

verus! {

/// An error of an I/O back end, with its message.
#[derive(Debug, Clone)]
pub struct IoError {
    pub message: String,
}

impl IoError {
    /// An error with the message `message`.
    pub fn new(message: &str) -> (r: Self)
        ensures
            r.message@ == message@,
    {
        IoError { message: owned(message) }
    }

    /// The message of the error.
    pub fn to_string(&self) -> (r: String)
        ensures
            r@ == self.message@,
    {
        owned(self.message.as_str())
    }
}

/// The message of an I/O result's error, if it has one.
pub open spec fn io_error<T>(r: Result<T, IoError>) -> Option<Seq<char>> {
    match r {
        Ok(_) => None,
        Err(e) => Some(e.message@),
    }
}

/// Writers of progress output.
pub trait ProgressWriter: Sized {
    /// Whether writing `line` may take the writer from `self` to `after`, giving
    /// `result`.
    spec fn writes_line(&self, line: &str, after: Self, result: Result<(), IoError>) -> bool;

    /// Whether flushing may take the writer from `self` to `after`, giving `result`.
    spec fn flushes(&self, after: Self, result: Result<(), IoError>) -> bool;

    /// Whether the writer accepts more data.
    spec fn ready(&self) -> bool;

    /// Write a line of text.
    fn write_line(&mut self, line: &str) -> (r: Result<(), IoError>)
        ensures
            old(self).writes_line(line, *final(self), r),
    ;

    /// Flush any buffered content.
    fn flush(&mut self) -> (r: Result<(), IoError>)
        ensures
            old(self).flushes(*final(self), r),
    ;

    /// Whether the writer is ready to accept more data.
    fn is_ready(&self) -> (r: bool)
        ensures
            r == self.ready(),
    ;
}

/// The abstract state of an output buffer.
pub struct OutputBufferState {
    pub max_lines: usize,
    pub lines: Seq<Seq<char>>,
}

/// The lines after `line` is added: the oldest line makes room when the buffer is full.
pub open spec fn buffer_after_line(b: OutputBufferState, line: Seq<char>) -> OutputBufferState {
    if b.max_lines == 0 {
        b
    } else if b.lines.len() >= b.max_lines {
        OutputBufferState { lines: b.lines.drop_first().push(line), ..b }
    } else {
        OutputBufferState { lines: b.lines.push(line), ..b }
    }
}

/// A buffer never holds more lines than its size, and the newest line of a buffer
/// of some size is the one added last.
pub proof fn law_buffer_within_size(b: OutputBufferState, line: Seq<char>)
    requires
        b.lines.len() <= b.max_lines,
    ensures
        buffer_after_line(b, line).lines.len() <= b.max_lines,
        b.max_lines > 0 ==> buffer_after_line(b, line).lines.last() == line,
{
}

/// A buffer that keeps the most recent lines of output, up to a maximum.
#[derive(Debug)]
pub struct OutputBuffer {
    max_lines: usize,
    lines: Vec<String>,
}

impl View for OutputBuffer {
    type V = OutputBufferState;

    closed spec fn view(&self) -> OutputBufferState {
        OutputBufferState { max_lines: self.max_lines, lines: strings(self.lines@) }
    }
}

impl OutputBuffer {
    /// An empty buffer that keeps at most `max_lines` lines.
    pub fn new(max_lines: usize) -> (r: Self)
        ensures
            r@ == (OutputBufferState { max_lines, lines: Seq::empty() }),
    {
        let r = OutputBuffer { max_lines, lines: Vec::new() };
        assert(r@.lines =~= Seq::<Seq<char>>::empty());
        r
    }

    /// Adds a line, dropping the oldest one when the buffer is full. A buffer of
    /// size 0 stores no lines, so adding one leaves it as it is.
    pub fn add_line(&mut self, line: String)
        ensures
            final(self)@ == buffer_after_line(old(self)@, line@),
    {
        if self.max_lines == 0 {
            return;
        }
        let ghost before = strings(self.lines@);
        if self.lines.len() >= self.max_lines {
            self.lines.remove(0);
            assert(strings(self.lines@) =~= before.drop_first());
        }
        let ghost mid = strings(self.lines@);
        self.lines.push(line);
        assert(strings(self.lines@) =~= mid.push(line@));
    }

    /// The lines in the buffer, oldest first.
    pub fn get_lines(&self) -> (r: &[String])
        ensures
            strings(r@) == self@.lines,
    {
        self.lines.as_slice()
    }

    /// Removes every line.
    pub fn clear(&mut self)
        ensures
            final(self)@ == (OutputBufferState { lines: Seq::empty(), ..old(self)@ }),
    {
        self.lines.clear();
        assert(strings(self.lines@) =~= Seq::<Seq<char>>::empty());
    }
}

impl ProgressWriter for OutputBuffer {
    /// A line goes in as `add_line` puts it, and writing always succeeds.
    open spec fn writes_line(&self, line: &str, after: Self, result: Result<(), IoError>) -> bool {
        match result {
            Ok(_) => after@ == buffer_after_line(self@, line@),
            Err(_) => false,
        }
    }

    /// Flushing succeeds and changes nothing.
    open spec fn flushes(&self, after: Self, result: Result<(), IoError>) -> bool {
        result is Ok && after@ == self@
    }

    /// A buffer is always ready.
    open spec fn ready(&self) -> bool {
        true
    }

    fn write_line(&mut self, line: &str) -> (r: Result<(), IoError>)
        ensures
            r is Ok,
            final(self)@ == buffer_after_line(old(self)@, line@),
    {
        self.add_line(owned(line));
        Ok(())
    }

    fn flush(&mut self) -> (r: Result<(), IoError>)
        ensures
            r is Ok,
            final(self)@ == old(self)@,
    {
        Ok(())
    }

    fn is_ready(&self) -> (r: bool)
        ensures
            r,
    {
        true
    }
}

/// A writer that sends its output to two writers.
#[derive(Debug)]
pub struct TeeWriter<W1: ProgressWriter, W2: ProgressWriter> {
    writer1: W1,
    writer2: W2,
}

impl<W1: ProgressWriter, W2: ProgressWriter> TeeWriter<W1, W2> {
    /// A writer that writes to `writer1` and then to `writer2`.
    pub fn new(writer1: W1, writer2: W2) -> (r: Self)
        ensures
            r.first() == writer1,
            r.second() == writer2,
    {
        TeeWriter { writer1, writer2 }
    }

    /// The first destination.
    pub closed spec fn first(&self) -> W1 {
        self.writer1
    }

    /// The second destination.
    pub closed spec fn second(&self) -> W2 {
        self.writer2
    }

    /// The first destination.
    pub fn writer1(&self) -> (r: &W1)
        ensures
            *r == self.first(),
    {
        &self.writer1
    }

    /// The second destination.
    pub fn writer2(&self) -> (r: &W2)
        ensures
            *r == self.second(),
    {
        &self.writer2
    }
}

impl<W1: ProgressWriter, W2: ProgressWriter> ProgressWriter for TeeWriter<W1, W2> {
    /// The line goes to the first writer; when that succeeds, to the second, and
    /// the result is the second's; when it fails, its error is the result and the
    /// second is left as it was.
    open spec fn writes_line(&self, line: &str, after: Self, result: Result<(), IoError>) -> bool {
        ||| (self.first().writes_line(line, after.first(), Ok(())) && self.second().writes_line(
            line,
            after.second(),
            result,
        ))
        ||| (result is Err && self.first().writes_line(line, after.first(), result) && after.second()
            == self.second())
    }

    /// The first writer is flushed; when that succeeds, the second, and the result
    /// is the second's; when it fails, its error is the result and the second is
    /// left as it was.
    open spec fn flushes(&self, after: Self, result: Result<(), IoError>) -> bool {
        ||| (self.first().flushes(after.first(), Ok(())) && self.second().flushes(after.second(), result))
        ||| (result is Err && self.first().flushes(after.first(), result) && after.second() == self.second())
    }

    /// Ready when both writers are.
    open spec fn ready(&self) -> bool {
        self.first().ready() && self.second().ready()
    }

    /// Writes to the first writer, then to the second; stops at the first error.
    fn write_line(&mut self, line: &str) -> (r: Result<(), IoError>) {
        let first = self.writer1.write_line(line);
        match first {
            Ok(u) => {
                assert(u == ());
                assert(first == Ok::<(), IoError>(()));
                self.writer2.write_line(line)
            },
            Err(e) => Err(e),
        }
    }

    /// Flushes the first writer, then the second; stops at the first error.
    fn flush(&mut self) -> (r: Result<(), IoError>) {
        let first = self.writer1.flush();
        match first {
            Ok(u) => {
                assert(u == ());
                assert(first == Ok::<(), IoError>(()));
                self.writer2.flush()
            },
            Err(e) => Err(e),
        }
    }

    /// Ready when both writers are.
    fn is_ready(&self) -> (r: bool) {
        self.writer1.is_ready() && self.writer2.is_ready()
    }
}

/// The capabilities a custom writer can support.
#[derive(Debug, Clone, Copy, PartialEq, Eq, Structural)]
pub struct WriterCapabilities {
    /// Custom formatting
    pub supports_formatting: bool,
    /// Output filtering
    pub supports_filtering: bool,
    /// Output redirection
    pub supports_redirection: bool,
    /// Async operations
    pub supports_async: bool,
}

impl Default for WriterCapabilities {
    fn default() -> (r: Self)
        ensures
            r == (WriterCapabilities {
                supports_formatting: false,
                supports_filtering: false,
                supports_redirection: false,
                supports_async: false,
            }),
    {
        WriterCapabilities {
            supports_formatting: false,
            supports_filtering: false,
            supports_redirection: false,
            supports_async: false,
        }
    }
}

/// Writers that can be registered by name.
pub trait CustomWriter: ProgressWriter {
    /// The name this writer gives.
    spec fn writer_name(&self) -> &str;

    /// The name of this writer.
    fn name(&self) -> (r: &str)
        ensures
            r@ == self.writer_name()@,
    ;

    /// The capabilities of this writer.
    fn capabilities(&self) -> WriterCapabilities;

    /// The configuration of this writer, as key-value pairs.
    fn config(&self) -> Vec<(String, String)>;
}

/// Whether no two entries share a name.
pub open spec fn names_distinct<W>(es: Seq<(Seq<char>, W)>) -> bool {
    forall|i: int, j: int| 0 <= i < j < es.len() ==> (#[trigger] es[i]).0 != (#[trigger] es[j]).0
}

/// The names of registered entries.
pub open spec fn entry_names<W>(es: Seq<(Seq<char>, W)>) -> Seq<Seq<char>> {
    es.map_values(|e: (Seq<char>, W)| e.0)
}

/// A registry of custom writers under distinct names (the names the writers gave
/// when they were registered), in registration order.
#[derive(Debug)]
pub struct WriterRegistry<W: CustomWriter> {
    writers: Vec<(String, W)>,
}

impl<W: CustomWriter> WriterRegistry<W> {
    /// The registered writers with their names.
    pub closed spec fn entries(&self) -> Seq<(Seq<char>, W)> {
        self.writers@.map_values(|e: (String, W)| (e.0@, e.1))
    }

    /// No two registered writers share a name.
    #[verifier::type_invariant]
    spec fn wf(self) -> bool {
        names_distinct(self.entries())
    }

    /// An empty registry.
    pub fn new() -> (r: Self)
        ensures
            r.entries() == Seq::<(Seq<char>, W)>::empty(),
    {
        let r = WriterRegistry { writers: Vec::new() };
        assert(r.entries() =~= Seq::<(Seq<char>, W)>::empty());
        r
    }

    fn find(&self, name: &str) -> (r: Option<usize>)
        ensures
            match r {
                Some(i) => i < self.entries().len() && self.entries()[i as int].0 == name@,
                None => !entry_names(self.entries()).contains(name@),
            },
    {
        let mut i: usize = 0;
        while i < self.writers.len()
            invariant
                i <= self.writers@.len(),
                forall|j: int| 0 <= j < i ==> (#[trigger] self.entries()[j]).0 != name@,
            decreases self.writers@.len() - i,
        {
            if str_eq(self.writers[i].0.as_str(), name) {
                assert(self.entries()[i as int].0 == name@);
                return Some(i);
            }
            assert(self.entries()[i as int].0 == self.writers@[i as int].0@);
            i = i + 1;
        }
        proof {
            if entry_names(self.entries()).contains(name@) {
                let k = choose|k: int| 0 <= k < entry_names(self.entries()).len() && entry_names(self.entries())[k] == name@;
                assert(self.entries()[k].0 == name@);
            }
        }
        None
    }

    /// Registers `writer` under the name it gives; a writer already registered
    /// under that name is an error.
    pub fn register(&mut self, writer: W) -> (r: Result<(), IoError>)
        ensures
            names_distinct(final(self).entries()),
            r is Err <==> entry_names(old(self).entries()).contains(writer.writer_name()@),
            r matches Err(e) ==> e.message@ == "Writer '"@ + writer.writer_name()@ + "' is already registered"@
                && final(self).entries() == old(self).entries(),
            r is Ok ==> final(self).entries() == old(self).entries().push((writer.writer_name()@, writer)),
    {
        proof {
            use_type_invariant(&*self);
        }
        let name = owned(writer.name());
        let found = self.find(name.as_str());
        match found {
            Some(_) => {
                let mut msg = owned("Writer '");
                push_str(&mut msg, name.as_str());
                push_str(&mut msg, "' is already registered");
                proof {
                    let i = found.unwrap() as int;
                    assert(entry_names(old(self).entries())[i] == name@);
                    assert(entry_names(old(self).entries()).contains(name@));
                    assert(msg@ == "Writer '"@ + name@ + "' is already registered"@);
                }
                Err(IoError { message: msg })
            },
            None => {
                let ghost before = self.entries();
                let mut ws: Vec<(String, W)> = Vec::new();
                std::mem::swap(&mut ws, &mut self.writers);
                ws.push((name, writer));
                let ghost after = ws@.map_values(|e: (String, W)| (e.0@, e.1));
                proof {
                    assert(after =~= before.push((name@, writer)));
                    assert forall|a: int, b: int| 0 <= a < b < after.len() implies (#[trigger] after[a]).0
                        != (#[trigger] after[b]).0 by {
                        if b == before.len() {
                            assert(entry_names(before)[a] == before[a].0);
                        }
                    }
                }
                self.writers = ws;
                Ok(())
            },
        }
    }

    /// The writer registered as `name`.
    pub fn get(&self, name: &str) -> (r: Option<&W>)
        ensures
            match r {
                Some(w) => self.entries().contains((name@, *w)),
                None => !entry_names(self.entries()).contains(name@),
            },
    {
        match self.find(name) {
            Some(i) => {
                assert(self.entries()[i as int] == (name@, self.writers@[i as int].1));
                Some(&self.writers[i].1)
            },
            None => None,
        }
    }

    /// The names of the registered writers, in registration order.
    pub fn list(&self) -> (r: Vec<&str>)
        ensures
            r@.map_values(|s: &str| s@) == entry_names(self.entries()),
    {
        let mut names: Vec<&str> = Vec::new();
        let mut i: usize = 0;
        while i < self.writers.len()
            invariant
                i <= self.writers@.len(),
                names@.map_values(|s: &str| s@) == entry_names(self.entries()).take(i as int),
            decreases self.writers@.len() - i,
        {
            let n = self.writers[i].0.as_str();
            let ghost before = names@.map_values(|s: &str| s@);
            names.push(n);
            proof {
                let all = entry_names(self.entries());
                assert(names@.map_values(|s: &str| s@) =~= before.push(n@));
                assert(all[i as int] == self.writers@[i as int].0@);
                assert(all.take(i as int + 1) =~= all.take(i as int).push(all[i as int]));
            }
            i = i + 1;
        }
        assert(entry_names(self.entries()).take(self.writers@.len() as int) =~= entry_names(self.entries()));
        names
    }

    /// Removes and returns the writer registered as `name`.
    pub fn remove(&mut self, name: &str) -> (r: Option<W>)
        ensures
            names_distinct(final(self).entries()),
            match r {
                Some(w) => exists|i: int|
                    0 <= i < old(self).entries().len() && old(self).entries()[i] == (name@, w) && final(self).entries()
                        == old(self).entries().remove(i),
                None => !entry_names(old(self).entries()).contains(name@) && final(self).entries() == old(
                    self,
                ).entries(),
            },
    {
        proof {
            use_type_invariant(&*self);
        }
        match self.find(name) {
            Some(i) => {
                let ghost o = self.entries();
                let mut ws: Vec<(String, W)> = Vec::new();
                std::mem::swap(&mut ws, &mut self.writers);
                let e = ws.remove(i);
                let ghost after = ws@.map_values(|e: (String, W)| (e.0@, e.1));
                proof {
                    assert(after =~= o.remove(i as int));
                    assert forall|a: int, b: int| 0 <= a < b < after.len() implies (#[trigger] after[a]).0
                        != (#[trigger] after[b]).0 by {
                        let a2 = if a < i { a } else { a + 1 };
                        let b2 = if b < i { b } else { b + 1 };
                        assert(after[a] == o[a2]);
                        assert(after[b] == o[b2]);
                    }
                }
                self.writers = ws;
                Some(e.1)
            },
            None => None,
        }
    }
}

/// The capabilities of an I/O back end.
#[derive(Debug, Clone, Copy, PartialEq, Eq, Structural)]
pub struct IOCapabilities {
    /// Input operations
    pub supports_input: bool,
    /// Output operations
    pub supports_output: bool,
    /// Synchronous operations
    pub supports_sync: bool,
    /// Asynchronous operations
    pub supports_async: bool,
    /// Seeking
    pub supports_seek: bool,
    /// Filtering
    pub supports_filtering: bool,
}

impl Default for IOCapabilities {
    /// Output and synchronous operations only.
    fn default() -> (r: Self)
        ensures
            r == (IOCapabilities {
                supports_input: false,
                supports_output: true,
                supports_sync: true,
                supports_async: false,
                supports_seek: false,
                supports_filtering: false,
            }),
    {
        IOCapabilities {
            supports_input: false,
            supports_output: true,
            supports_sync: true,
            supports_async: false,
            supports_seek: false,
            supports_filtering: false,
        }
    }
}

/// Modes for opening an I/O back end.
#[derive(Debug, Clone, Copy, PartialEq, Eq, Structural)]
pub enum IOMode {
    /// Read-only mode
    Read,
    /// Write-only mode
    Write,
    /// Append mode (write but don't truncate)
    Append,
    /// Read and write mode
    ReadWrite,
}

/// Operations every I/O back end has.
pub trait IO {
    /// The name of this back end.
    fn name(&self) -> &str;

    /// The capabilities of this back end.
    fn capabilities(&self) -> IOCapabilities;

    /// Whether the back end is ready for operations.
    fn is_ready(&self) -> bool;

    /// Close the back end.
    fn close(&mut self) -> Result<(), IoError>;
}

/// Back ends that support output.
pub trait OutputIO: IO {
    /// Write a line of text.
    fn write_line(&mut self, line: &str) -> Result<(), IoError>;

    /// Flush any buffered content.
    fn flush_output(&mut self) -> Result<(), IoError>;
}

/// Back ends that support input.
pub trait InputIO: IO {
    /// Read a line of text.
    fn read_line(&mut self) -> Result<String, IoError>;

    /// Whether there is data available to read.
    fn has_data_available(&self) -> bool;
}

/// Back ends that support seeking.
pub trait SeekableIO: IO {
    /// Seek to a position.
    fn seek(&mut self, position: u64) -> Result<u64, IoError>;

    /// The current position.
    fn position(&self) -> Result<u64, IoError>;

    /// The size of the underlying resource.
    fn size(&self) -> Result<u64, IoError>;
}

/// Back ends that support filtering.
pub trait FilterableIO: IO {
    /// Set a filter pattern.
    fn set_filter(&mut self, pattern: &str) -> Result<(), IoError>;

    /// Remove any filter.
    fn clear_filter(&mut self) -> Result<(), IoError>;

    /// The current filter pattern, if any.
    fn get_filter(&self) -> Option<String>;
}

/// Factories of I/O back ends.
pub trait IOFactory {
    /// The back end the factory makes.
    type Backend: IO;

    /// A back end for the file at `path`.
    fn create_file_io(&self, path: &str, mode: IOMode) -> Result<Self::Backend, IoError>;

    /// A back end over a byte buffer.
    fn create_memory_io(&self, initial_data: Option<Vec<u8>>, mode: IOMode) -> Result<Self::Backend, IoError>;

    /// A back end over a string buffer.
    fn create_string_io(&self, initial_data: Option<String>, mode: IOMode) -> Result<Self::Backend, IoError>;

    /// A back end for a custom source.
    fn create_custom_io(&self, source: &str, config: &[(&str, &str)], mode: IOMode) -> Result<
        Self::Backend,
        IoError,
    >;
}

/// The capabilities of the network stub: output, asynchronously.
pub open spec fn network_capabilities() -> IOCapabilities {
    IOCapabilities {
        supports_input: false,
        supports_output: true,
        supports_sync: false,
        supports_async: true,
        supports_seek: false,
        supports_filtering: false,
    }
}

/// A stub network back end: it can be closed, and its reads and writes fail.
#[derive(Debug)]
pub struct NetworkIO {
    address: String,
    closed: bool,
    capabilities: IOCapabilities,
}

impl NetworkIO {
    /// A stub for `address`, open.
    pub fn new(address: String) -> (r: Self)
        ensures
            r.address() == address@,
            !r.is_closed(),
            r.caps() == network_capabilities(),
    {
        NetworkIO {
            address,
            closed: false,
            capabilities: IOCapabilities {
                supports_input: false,
                supports_output: true,
                supports_sync: false,
                supports_async: true,
                supports_seek: false,
                supports_filtering: false,
            },
        }
    }

    /// The address of the stub.
    pub closed spec fn address(&self) -> Seq<char> {
        self.address@
    }

    /// Whether the stub has been closed.
    pub closed spec fn is_closed(&self) -> bool {
        self.closed
    }

    /// The capabilities of the stub.
    pub closed spec fn caps(&self) -> IOCapabilities {
        self.capabilities
    }
}

impl IO for NetworkIO {
    fn name(&self) -> (r: &str)
        ensures
            r@ == "network_io"@,
    {
        "network_io"
    }

    fn capabilities(&self) -> (r: IOCapabilities)
        ensures
            r == self.caps(),
    {
        self.capabilities
    }

    fn is_ready(&self) -> (r: bool)
        ensures
            r == !self.is_closed(),
    {
        !self.closed
    }

    fn close(&mut self) -> (r: Result<(), IoError>)
        ensures
            r is Ok,
            final(self).is_closed(),
            final(self).address() == old(self).address(),
            final(self).caps() == old(self).caps(),
    {
        self.closed = true;
        Ok(())
    }
}

impl InputIO for NetworkIO {
    fn read_line(&mut self) -> (r: Result<String, IoError>)
        ensures
            r matches Err(e) && e.message@ == "NetworkIO read_line not implemented"@,
    {
        Err(IoError::new("NetworkIO read_line not implemented"))
    }

    fn has_data_available(&self) -> (r: bool)
        ensures
            !r,
    {
        false
    }
}

impl OutputIO for NetworkIO {
    fn write_line(&mut self, line: &str) -> (r: Result<(), IoError>)
        ensures
            r matches Err(e) && e.message@ == "NetworkIO write_line not implemented"@,
    {
        Err(IoError::new("NetworkIO write_line not implemented"))
    }

    fn flush_output(&mut self) -> (r: Result<(), IoError>)
        ensures
            r matches Err(e) && e.message@ == "NetworkIO flush_output not implemented"@,
    {
        Err(IoError::new("NetworkIO flush_output not implemented"))
    }
}

/// How one handle on a file is opened.
#[derive(Debug, Clone, Copy, PartialEq, Eq, Structural)]
pub struct OpenFlags {
    pub read: bool,
    pub write: bool,
    pub append: bool,
    pub create: bool,
    pub truncate: bool,
}

/// The handles a file back end opens for a mode, in the order they are opened,
/// each with what its failure is reported as.
#[derive(Debug, Clone)]
pub struct FileOpenPlan {
    /// The reading handle, if the mode reads.
    pub reader: Option<OpenFlags>,
    /// The writing handle, if the mode writes.
    pub writer: Option<OpenFlags>,
    /// Whether the writer is opened before the reader.
    pub writer_first: bool,
    /// The failure message of the writer's opening, before the path.
    pub writer_context: Option<String>,
}

/// The flags of a handle that only reads.
pub open spec fn read_flags() -> OpenFlags {
    OpenFlags { read: true, write: false, append: false, create: false, truncate: false }
}

/// The flags of a handle that writes from the start of a file it creates or empties.
pub open spec fn write_flags() -> OpenFlags {
    OpenFlags { read: false, write: true, append: false, create: true, truncate: true }
}

/// The flags of a handle that appends to a file it creates when missing.
pub open spec fn append_flags() -> OpenFlags {
    OpenFlags { read: false, write: false, append: true, create: true, truncate: false }
}

impl FileOpenPlan {
    /// The handles for `mode`: a reader to read, a truncating writer to write, an
    /// appending writer to append; to read and write, a truncating writer and then
    /// a reader.
    pub fn for_mode(mode: IOMode) -> (r: Self)
        ensures
            r.reader == if mode == IOMode::Read || mode == IOMode::ReadWrite {
                Some(read_flags())
            } else {
                None::<OpenFlags>
            },
            r.writer == match mode {
                IOMode::Read => None::<OpenFlags>,
                IOMode::Write => Some(write_flags()),
                IOMode::Append => Some(append_flags()),
                IOMode::ReadWrite => Some(write_flags()),
            },
            r.writer_first == (mode == IOMode::ReadWrite),
            match mode {
                IOMode::Read => r.writer_context is None,
                IOMode::Write => r.writer_context matches Some(c) && c@ == "Failed to open file for writing: "@,
                IOMode::Append => r.writer_context matches Some(c) && c@ == "Failed to open file for appending: "@,
                IOMode::ReadWrite => r.writer_context matches Some(c) && c@
                    == "Failed to open file for reading and writing: "@,
            },
    {
        let read = OpenFlags { read: true, write: false, append: false, create: false, truncate: false };
        let write = OpenFlags { read: false, write: true, append: false, create: true, truncate: true };
        match mode {
            IOMode::Read => FileOpenPlan { reader: Some(read), writer: None, writer_first: false, writer_context: None },
            IOMode::Write => FileOpenPlan {
                reader: None,
                writer: Some(write),
                writer_first: false,
                writer_context: Some(owned("Failed to open file for writing: ")),
            },
            IOMode::Append => FileOpenPlan {
                reader: None,
                writer: Some(OpenFlags { read: false, write: false, append: true, create: true, truncate: false }),
                writer_first: false,
                writer_context: Some(owned("Failed to open file for appending: ")),
            },
            IOMode::ReadWrite => FileOpenPlan {
                reader: Some(read),
                writer: Some(write),
                writer_first: true,
                writer_context: Some(owned("Failed to open file for reading and writing: ")),
            },
        }
    }

    /// The failure message of the reader's opening, before the path.
    pub fn reader_context(&self) -> (r: &'static str)
        ensures
            r@ == "Failed to open file for reading: "@,
    {
        "Failed to open file for reading: "
    }
}

} // verus!
