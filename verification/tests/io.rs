use nt_progress::io::{
    CustomWriter, FileOpenPlan, IOCapabilities, IOFactory, IOMode, InputIO, IoError, NetworkIO, OutputBuffer,
    OutputIO, ProgressWriter, SeekableIO, TeeWriter, WriterCapabilities, WriterRegistry, IO,
};
use nt_progress::memory_io::{DefaultIOFactory, MemoryIO};

#[test]
fn output_buffer_keeps_the_latest_lines() {
    let mut buffer = OutputBuffer::new(2);
    buffer.add_line("a".to_string());
    buffer.add_line("b".to_string());
    buffer.add_line("c".to_string());
    assert_eq!(buffer.get_lines(), &["b".to_string(), "c".to_string()]);
    buffer.clear();
    assert!(buffer.get_lines().is_empty());
    assert!(buffer.write_line("d").is_ok());
    assert_eq!(buffer.get_lines(), &["d".to_string()]);
    assert!(buffer.is_ready());
    let mut empty = OutputBuffer::new(0);
    assert!(empty.write_line("x").is_ok());
    empty.add_line("y".to_string());
    assert!(empty.get_lines().is_empty());
}

#[test]
fn tee_writer_writes_to_both() {
    let mut tee = TeeWriter::new(OutputBuffer::new(3), OutputBuffer::new(1));
    tee.write_line("one").unwrap();
    tee.write_line("two").unwrap();
    assert_eq!(tee.writer1().get_lines(), &["one".to_string(), "two".to_string()]);
    assert_eq!(tee.writer2().get_lines(), &["two".to_string()]);
    assert!(tee.is_ready());
    assert!(tee.flush().is_ok());
}

#[derive(Debug)]
struct NamedWriter {
    name: String,
    lines: Vec<String>,
}

impl ProgressWriter for NamedWriter {
    fn writes_line(&self, _line: &str, _after: Self, _result: Result<(), IoError>) -> bool {
        true
    }

    fn flushes(&self, _after: Self, _result: Result<(), IoError>) -> bool {
        true
    }

    fn ready(&self) -> bool {
        true
    }

    fn write_line(&mut self, line: &str) -> Result<(), IoError> {
        self.lines.push(line.to_string());
        Ok(())
    }

    fn flush(&mut self) -> Result<(), IoError> {
        Ok(())
    }

    fn is_ready(&self) -> bool {
        true
    }
}

impl CustomWriter for NamedWriter {
    fn writer_name(&self) -> &str {
        &self.name
    }

    fn name(&self) -> &str {
        &self.name
    }

    fn capabilities(&self) -> WriterCapabilities {
        WriterCapabilities::default()
    }

    fn config(&self) -> Vec<(String, String)> {
        Vec::new()
    }
}

fn named(name: &str) -> NamedWriter {
    NamedWriter { name: name.to_string(), lines: Vec::new() }
}

#[test]
fn writer_registry_keeps_names_distinct() {
    let mut registry = WriterRegistry::new();
    registry.register(named("log")).unwrap();
    registry.register(named("net")).unwrap();
    match registry.register(named("log")) {
        Err(e) => assert_eq!(e.to_string(), "Writer 'log' is already registered"),
        Ok(()) => panic!("expected an error"),
    }
    assert_eq!(registry.list(), vec!["log", "net"]);
    assert!(registry.get("net").is_some());
    assert!(registry.get("disk").is_none());
    let removed = registry.remove("log").unwrap();
    assert_eq!(removed.name, "log");
    assert!(removed.lines.is_empty());
    assert_eq!(registry.list(), vec!["net"]);
    assert!(registry.remove("log").is_none());
}

#[test]
fn capabilities_defaults() {
    let caps = IOCapabilities::default();
    assert!(!caps.supports_input);
    assert!(caps.supports_output);
    assert!(caps.supports_sync);
    assert!(!caps.supports_async);
    assert_eq!(WriterCapabilities::default().supports_formatting, false);
}

#[test]
fn network_stub_refuses_io() {
    let mut net = NetworkIO::new("localhost:9".to_string());
    assert_eq!(net.name(), "network_io");
    assert!(net.is_ready());
    assert!(net.capabilities().supports_async);
    assert!(!net.has_data_available());
    match net.write_line("x") {
        Err(e) => assert_eq!(e.to_string(), "NetworkIO write_line not implemented"),
        Ok(()) => panic!("expected an error"),
    }
    assert!(net.read_line().is_err());
    assert!(net.flush_output().is_err());
    net.close().unwrap();
    assert!(!net.is_ready());
}

#[test]
fn memory_io_reads_back_what_was_written() {
    let mut mem = MemoryIO::new(None, IOMode::ReadWrite);
    mem.write_line("first").unwrap();
    mem.write_line("zweite Zeile é").unwrap();
    assert_eq!(mem.position().unwrap(), 22);
    mem.seek(0).unwrap();
    assert!(mem.has_data_available());
    assert_eq!(mem.read_line().unwrap(), "first");
    assert_eq!(mem.read_line().unwrap(), "zweite Zeile é");
    assert_eq!(mem.read_line().unwrap(), "");
    assert!(!mem.has_data_available());
    assert_eq!(mem.size().unwrap(), 22);
    assert_eq!(mem.get_contents_utf8().unwrap(), "first\nzweite Zeile é\n");
}

#[test]
fn memory_io_modes_and_errors() {
    let mut reader = MemoryIO::new(Some(b"abc".to_vec()), IOMode::Read);
    match reader.write_line("x") {
        Err(e) => assert_eq!(e.to_string(), "Memory buffer not opened for writing"),
        Ok(()) => panic!("expected an error"),
    }
    assert_eq!(reader.read(2).unwrap(), b"ab".to_vec());
    assert_eq!(reader.read(5).unwrap(), b"c".to_vec());
    assert!(reader.read(5).unwrap().is_empty());

    let mut appender = MemoryIO::new(Some(b"ab".to_vec()), IOMode::Append);
    appender.seek(0).unwrap();
    assert_eq!(appender.write(b"cd").unwrap(), 2);
    assert_eq!(appender.get_contents(), b"abcd".to_vec());
    match appender.read_line() {
        Err(e) => assert_eq!(e.to_string(), "Memory buffer not opened for reading"),
        Ok(_) => panic!("expected an error"),
    }

    let mut writer = MemoryIO::new(Some(b"abcdef".to_vec()), IOMode::Write);
    writer.seek(8).unwrap();
    writer.write(b"z").unwrap();
    assert_eq!(writer.get_contents(), b"abcdef\0\0z".to_vec());
    writer.seek(1).unwrap();
    writer.write(b"XY").unwrap();
    assert_eq!(writer.get_contents(), b"aXYdef\0\0z".to_vec());
    writer.close().unwrap();
    assert!(!writer.is_ready());
    match writer.seek(0) {
        Err(e) => assert_eq!(e.to_string(), "Cannot seek in closed memory buffer"),
        Ok(_) => panic!("expected an error"),
    }
    assert!(writer.size().is_err());

    let mut bad = MemoryIO::new(Some(vec![0xff, b'\n']), IOMode::Read);
    match bad.read_line() {
        Err(e) => assert_eq!(e.to_string(), "Invalid UTF-8 in line"),
        Ok(_) => panic!("expected an error"),
    }
    assert!(bad.get_contents_utf8().unwrap_err().to_string().starts_with("Memory buffer contains invalid UTF-8: "));
}

#[test]
fn default_factory_makes_memory_buffers() {
    let factory = DefaultIOFactory;
    let io = factory.create_string_io(Some("hé".to_string()), IOMode::Read).unwrap();
    assert_eq!(io.get_contents(), vec![b'h', 0xc3, 0xa9]);
    let io = factory.create_file_io("/nowhere", IOMode::Write).unwrap();
    assert!(io.get_contents().is_empty());
    assert_eq!(io.capabilities(), IOCapabilities {
        supports_input: false,
        supports_output: true,
        supports_sync: true,
        supports_async: false,
        supports_seek: true,
        supports_filtering: false,
    });
    let io = factory.create_custom_io("src", &[("k", "v")], IOMode::ReadWrite).unwrap();
    assert_eq!(io.get_contents(), b"src".to_vec());
    let io = factory.create_memory_io(Some(vec![1, 2]), IOMode::Read).unwrap();
    assert_eq!(io.get_contents(), vec![1, 2]);
}

#[test]
fn file_open_plans_follow_the_mode() {
    let plan = FileOpenPlan::for_mode(IOMode::ReadWrite);
    assert!(plan.writer_first);
    assert!(plan.reader.unwrap().read);
    assert!(plan.writer.unwrap().truncate);
    assert_eq!(plan.writer_context, Some("Failed to open file for reading and writing: ".to_string()));
    let plan = FileOpenPlan::for_mode(IOMode::Append);
    assert!(plan.reader.is_none());
    assert!(plan.writer.unwrap().append);
    assert_eq!(plan.reader_context(), "Failed to open file for reading: ");
}
