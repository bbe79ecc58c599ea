//! Building a send: the flags and version handed to the send ioctl.
use crate::consts;
use vstd::prelude::*;

verus! {

/// Arguments of the send ioctl.
#[derive(Debug, Clone, Copy, PartialEq, Eq, Structural)]
pub struct SendArgs {
    /// File descriptor that the stream is written to.
    pub send_fd: i64,
    /// Raw send flags.
    pub flags: u64,
    /// Stream version.
    pub version: u32,
}

/// Size of the pipe that carries a stream of the given version.
pub open spec fn spec_pipe_size(version: u32) -> i32 {
    if version > 1 {
        128_000
    } else {
        64_000
    }
}

/// Builds a send stream.
pub struct SendBuilder<R, H> {
    source: R,
    buffered: bool,
    version: u32,
    send_fd: i64,
    flags: u64,
    handler: Option<H>,
}

/// Settings of a [`SendBuilder`].
pub struct SendBuilderView {
    pub buffered: bool,
    pub version: u32,
    pub send_fd: i64,
    pub flags: u64,
    pub has_handler: bool,
}

impl<R, H> View for SendBuilder<R, H> {
    type V = SendBuilderView;

    closed spec fn view(&self) -> SendBuilderView {
        SendBuilderView {
            buffered: self.buffered,
            version: self.version,
            send_fd: self.send_fd,
            flags: self.flags,
            has_handler: self.handler is Some,
        }
    }
}

impl<R, H> SendBuilder<R, H> {
    /// The subvolume that is sent.
    pub closed spec fn spec_source(&self) -> R {
        self.source
    }

    /// The handler that receives the stream, if any.
    pub closed spec fn spec_handler(&self) -> Option<H> {
        self.handler
    }

    /// A builder for a send of `source`, writing a stream of version `version` to `send_fd`.
    pub fn new(source: R, version: u32, send_fd: i64) -> (r: Self)
        ensures
            r.spec_source() == source,
            r.spec_handler() is None,
            r@.buffered == false,
            r@.version == version,
            r@.send_fd == send_fd,
            r@.flags == 0,
            r@.has_handler == false,
    {
        SendBuilder { source, buffered: false, version, send_fd, flags: 0, handler: None }
    }

    /// Set the send stream version.
    pub fn version(self, version: u32) -> (r: Self)
        ensures
            r.spec_source() == self.spec_source(),
            r.spec_handler() == self.spec_handler(),
            r@ == (SendBuilderView { version, ..self@ }),
    {
        SendBuilder { version, ..self }
    }

    /// Use the given `handler` to receive the stream.
    pub fn handler(self, handler: H) -> (r: Self)
        ensures
            r.spec_source() == self.spec_source(),
            r.spec_handler() == Some(handler),
            r@ == (SendBuilderView { has_handler: true, ..self@ }),
    {
        SendBuilder { handler: Some(handler), ..self }
    }

    /// Wether or not to use a buffered receive. This option has no effect if no handler is
    /// provided.
    pub fn buffered(self, buffered: bool) -> (r: Self)
        ensures
            r.spec_source() == self.spec_source(),
            r.spec_handler() == self.spec_handler(),
            r@ == (SendBuilderView { buffered, ..self@ }),
    {
        SendBuilder { buffered, ..self }
    }

    /// Sets or clears the raw send flag `flag`.
    fn set_flag(self, flag: u64, on: bool) -> (r: Self)
        ensures
            r.spec_source() == self.spec_source(),
            r.spec_handler() == self.spec_handler(),
            r@ == (SendBuilderView {
                flags: if on {
                    self@.flags | flag
                } else {
                    self@.flags & !flag
                },
                ..self@
            }),
    {
        let flags = if on {
            self.flags | flag
        } else {
            self.flags & !flag
        };
        SendBuilder { flags, ..self }
    }

    /// File data wont be included in the stream. Write commands will be replaced with Update
    /// Extent commands.
    pub fn no_file_data(self, no_file_data: bool) -> (r: Self)
        ensures
            r.spec_source() == self.spec_source(),
            r.spec_handler() == self.spec_handler(),
            r@ == (SendBuilderView {
                flags: if no_file_data {
                    self@.flags | consts::BTRFS_SEND_FLAG_NO_FILE_DATA
                } else {
                    self@.flags & !consts::BTRFS_SEND_FLAG_NO_FILE_DATA
                },
                ..self@
            }),
    {
        self.set_flag(consts::BTRFS_SEND_FLAG_NO_FILE_DATA, no_file_data)
    }

    /// Omit the command at the end of the stream.
    pub fn omit_end_cmd(self, omit_end_cmd: bool) -> (r: Self)
        ensures
            r.spec_source() == self.spec_source(),
            r.spec_handler() == self.spec_handler(),
            r@ == (SendBuilderView {
                flags: if omit_end_cmd {
                    self@.flags | consts::BTRFS_SEND_FLAG_OMIT_END_CMD
                } else {
                    self@.flags & !consts::BTRFS_SEND_FLAG_OMIT_END_CMD
                },
                ..self@
            }),
    {
        self.set_flag(consts::BTRFS_SEND_FLAG_OMIT_END_CMD, omit_end_cmd)
    }

    /// Omit the stream header.
    pub fn omit_stream_header(self, omit_stream_header: bool) -> (r: Self)
        ensures
            r.spec_source() == self.spec_source(),
            r.spec_handler() == self.spec_handler(),
            r@ == (SendBuilderView {
                flags: if omit_stream_header {
                    self@.flags | consts::BTRFS_SEND_FLAG_OMIT_STREAM_HEADER
                } else {
                    self@.flags & !consts::BTRFS_SEND_FLAG_OMIT_STREAM_HEADER
                },
                ..self@
            }),
    {
        self.set_flag(consts::BTRFS_SEND_FLAG_OMIT_STREAM_HEADER, omit_stream_header)
    }

    /// Send compressed data.
    pub fn compressed(self, compressed: bool) -> (r: Self)
        ensures
            r.spec_source() == self.spec_source(),
            r.spec_handler() == self.spec_handler(),
            r@ == (SendBuilderView {
                flags: if compressed {
                    self@.flags | consts::BTRFS_SEND_FLAG_COMPRESSED
                } else {
                    self@.flags & !consts::BTRFS_SEND_FLAG_COMPRESSED
                },
                ..self@
            }),
    {
        self.set_flag(consts::BTRFS_SEND_FLAG_COMPRESSED, compressed)
    }

    /// Redirects the stream to `send_fd`, as a send that is received by a handler does.
    pub fn set_send_fd(self, send_fd: i64) -> (r: Self)
        ensures
            r.spec_source() == self.spec_source(),
            r.spec_handler() == self.spec_handler(),
            r@ == (SendBuilderView { send_fd, ..self@ }),
    {
        SendBuilder { send_fd, ..self }
    }

    /// Whether a handler receives the stream.
    pub fn has_handler(&self) -> (r: bool)
        ensures
            r == self@.has_handler,
    {
        self.handler.is_some()
    }

    /// Arguments of the send ioctl: a stream of version 2 or later also asks for that version.
    pub fn send_args(&self) -> (r: SendArgs)
        ensures
            r.send_fd == self@.send_fd,
            r.version == self@.version,
            r.flags == if self@.version > 1 {
                self@.flags | consts::BTRFS_SEND_FLAG_VERSION
            } else {
                self@.flags
            },
    {
        let flags = if self.version > 1 {
            self.flags | consts::BTRFS_SEND_FLAG_VERSION
        } else {
            self.flags
        };
        SendArgs { send_fd: self.send_fd, flags, version: self.version }
    }

    /// Size of the pipe that carries the stream to the handler.
    pub fn pipe_size(&self) -> (r: i32)
        ensures
            r == spec_pipe_size(self@.version),
    {
        if self.version > 1 {
            128_000
        } else {
            64_000
        }
    }

    /// Splits the builder into its source, handler, buffering and ioctl arguments.
    pub fn into_parts(self) -> (r: (R, Option<H>, bool, SendArgs))
        ensures
            r.0 == self.spec_source(),
            r.1 == self.spec_handler(),
            r.1 is Some == self@.has_handler,
            r.2 == self@.buffered,
            r.3.send_fd == self@.send_fd,
            r.3.version == self@.version,
            r.3.flags == if self@.version > 1 {
                self@.flags | consts::BTRFS_SEND_FLAG_VERSION
            } else {
                self@.flags
            },
    {
        let args = self.send_args();
        (self.source, self.handler, self.buffered, args)
    }
}

} // verus!
