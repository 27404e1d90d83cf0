//! Trusted boundary to the operating system's pseudo-terminals.
//!
//! Everything here either declares a `portable_pty` type or wraps one
//! call into that crate.  The session bookkeeping that uses these
//! handles lives in `pty` and is verified.

use vstd::prelude::*;
use std::io::BufRead;
use std::io::Write;
use crate::strutil::has_prefix;

verus! {

#[verifier::external_type_specification]
#[verifier::external_body]
pub struct ExCommandBuilder(portable_pty::CommandBuilder);

/// A command line under construction for a pseudo-terminal session.
///
/// Values are only ever created through [`PtyCommand::new`], never from
/// `CommandBuilder::new_default_prog`, so `portable_pty`'s argument
/// methods cannot panic on them.
pub struct PtyCommand {
    inner: portable_pty::CommandBuilder,
}

impl PtyCommand {
    /// Relies on `portable_pty::CommandBuilder::new`.
    #[verifier::external_body]
    pub fn new(program: &String) -> (r: PtyCommand) {
        PtyCommand { inner: portable_pty::CommandBuilder::new(program) }
    }

    /// Relies on `portable_pty::CommandBuilder::arg`; appends one
    /// argument to a builder that was made with a program name.
    #[verifier::external_body]
    pub fn arg(&mut self, arg: &String) {
        self.inner.arg(arg);
    }

    /// Relies on `portable_pty::CommandBuilder::env`; overrides one
    /// environment variable for the spawned process.
    #[verifier::external_body]
    pub fn env(&mut self, key: &String, value: &String) {
        self.inner.env(key, value);
    }

    /// Relies on `portable_pty::CommandBuilder::cwd`; sets the working
    /// directory of the spawned process.
    #[verifier::external_body]
    pub fn cwd(&mut self, dir: &String) {
        self.inner.cwd(dir);
    }
}

/// An open pseudo-terminal: the master/slave pair together with the
/// write handle and the buffered read handle of its master side.
#[verifier::external_body]
pub struct PtyHandle {
    pair: portable_pty::PtyPair,
    writer: Box<dyn std::io::Write + Send>,
    reader: std::io::BufReader<Box<dyn std::io::Read + Send>>,
}

/// Relies on `portable_pty`: `native_pty_system().openpty` sized to
/// (rows, cols), `try_clone_reader` and `take_writer` on the master,
/// and `spawn_command` on the slave.  The calls are fused into one
/// wrapper because their intermediate values are trait objects that
/// cannot be typed in verified code.  On any failure no session
/// resource is returned.
#[verifier::external_body]
pub fn pty_open(rows: u16, cols: u16, cmd: PtyCommand) -> (r: Result<PtyHandle, String>)
    ensures
        r matches Err(m) ==> m@.len() > 0,
{
    let size = portable_pty::PtySize { rows, cols, pixel_width: 0, pixel_height: 0 };
    let sys = portable_pty::native_pty_system();
    let pair = sys.openpty(size).map_err(|e| format!("Failed to open PTY: {}", e))?;
    let reader = pair.master.try_clone_reader().map_err(|e| format!("Failed to clone PTY reader: {}", e))?;
    let writer = pair.master.take_writer().map_err(|e| format!("Failed to take PTY writer: {}", e))?;
    if let Err(e) = pair.slave.spawn_command(cmd.inner) {
        return Err(format!("Failed to spawn command in PTY: {}", e));
    }
    Ok(PtyHandle { pair, writer, reader: std::io::BufReader::new(reader) })
}

/// Relies on `std::io::Write`: writes the text to the terminal's input
/// side and flushes.  Any failure is reported, never raised.
#[verifier::external_body]
pub fn pty_write_text(h: &mut PtyHandle, data: &str) -> (r: Result<(), String>)
    ensures
        r matches Err(m) ==> has_prefix(m@, "Failed to "@),
{
    if let Err(e) = write!(h.writer, "{}", data) {
        return Err(format!("Failed to write to PTY: {}", e));
    }
    match h.writer.flush() {
        Ok(()) => Ok(()),
        Err(e) => Err(format!("Failed to flush PTY: {}", e)),
    }
}

/// Relies on `std::io::BufRead::fill_buf` and `consume`: hands back
/// whatever is currently buffered, decoded permissively.  An empty
/// buffer is `Ok(None)` — no data is not a fault; a read fault is
/// `Err`.
#[verifier::external_body]
pub fn pty_read_text(h: &mut PtyHandle) -> (r: Result<Option<String>, String>)
    ensures
        r matches Ok(Some(text)) ==> text@.len() > 0,
        r matches Err(m) ==> has_prefix(m@, "Failed to "@),
{
    let data = match h.reader.fill_buf() {
        Ok(d) => d,
        Err(e) => return Err(format!("Failed to read from PTY: {}", e)),
    };
    if data.is_empty() {
        return Ok(None);
    }
    let text = String::from_utf8_lossy(data).to_string();
    let len = data.len();
    h.reader.consume(len);
    Ok(Some(text))
}

/// Relies on `portable_pty::MasterPty::resize`: propagates the new
/// dimensions to the kernel's terminal size.
#[verifier::external_body]
pub fn pty_resize(h: &mut PtyHandle, rows: u16, cols: u16) -> (r: Result<(), String>)
    ensures
        r matches Err(m) ==> has_prefix(m@, "Failed to "@),
{
    let size = portable_pty::PtySize { rows, cols, pixel_width: 0, pixel_height: 0 };
    match h.pair.master.resize(size) {
        Ok(()) => Ok(()),
        Err(e) => Err(format!("Failed to resize PTY: {}", e)),
    }
}

} // verus!
