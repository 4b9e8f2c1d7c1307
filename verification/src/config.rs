//! The declarative configuration of a buffer and what is built from it.

use crate::acker::Acker;
use crate::channel::MAX_CHANNEL_BUFFER;
use crate::input::BufferInputCloner;
use crate::policy::WhenFull;
use futures::channel::mpsc::{channel, Receiver};
use std::fmt::Display;
use std::path::PathBuf;
use vstd::prelude::*;
use vstd::string::{to_string_from_display_ensures, StringExecFns};

verus! {

/// `std::path::PathBuf`: a path in the file system, owned. Only passed on.
#[verifier::external_type_specification]
#[verifier::external_body]
pub struct ExPathBuf(PathBuf);

/// The read side of a buffer: the receiving half of the channel in memory, or
/// the reader of the queue on disk.
#[verifier::reject_recursive_types(T)]
pub enum BufferOutput<T, R> {
    Memory(Receiver<T>),
    Disk(R),
}

/// A claim on a system resource that no two pipeline components may share.
#[derive(Debug, Clone, PartialEq, Eq)]
pub enum Resource {
    /// The on-disk buffer of the sink with this name.
    DiskBuffer(String),
}

impl Resource {
    /// The name of the sink that makes the claim.
    pub open spec fn sink_name(self) -> Seq<char> {
        match self {
            Resource::DiskBuffer(name) => name@,
        }
    }
}

/// How a sink buffers the records that it has not taken yet.
#[derive(Debug, Clone, PartialEq)]
pub enum BufferConfig {
    /// In memory, in a channel with a buffer of `max_events` records.
    Memory { max_events: usize, when_full: WhenFull },
    /// On disk, in a queue of at most `max_size` bytes.
    Disk { max_size: usize, when_full: WhenFull },
}

impl Default for BufferConfig {
    /// An in-memory buffer of the default size that blocks when it is full.
    fn default() -> (config: Self)
        ensures
            config == (BufferConfig::Memory { max_events: 500, when_full: WhenFull::Block }),
    {
        BufferConfig::Memory {
            max_events: BufferConfig::memory_max_events(),
            when_full: WhenFull::default(),
        }
    }
}

impl BufferConfig {
    /// The number of records an in-memory buffer holds where none is given.
    #[inline]
    pub fn memory_max_events() -> (max_events: usize)
        ensures
            max_events == 500,
    {
        500
    }

    /// The overflow policy that the configuration asks for.
    pub open spec fn policy(self) -> WhenFull {
        match self {
            BufferConfig::Memory { when_full, .. } => when_full,
            BufferConfig::Disk { when_full, .. } => when_full,
        }
    }

    /// What `build` says where a buffer on disk is asked for and no data
    /// directory is given.
    pub open spec fn missing_data_dir() -> Seq<char> {
        "Must set data_dir to use on-disk buffering."@
    }

    /// The directory, below the data directory, that holds the disk buffer
    /// of the sink with this name.
    pub open spec fn buffer_dir(sink_name: Seq<char>) -> Seq<char> {
        sink_name + "_buffer"@
    }

    /// What `build` makes in memory: the two halves of one channel made for
    /// `max_events` records, the sending half in a handle with the policy
    /// asked for, and an acknowledger tied to nothing.
    pub open spec fn built_in_memory<T, W, R>(
        max_events: usize,
        when_full: WhenFull,
        built: Result<(BufferInputCloner<T, W>, BufferOutput<T, R>, Acker), String>,
    ) -> bool {
        match built {
            Ok(
                (BufferInputCloner::Memory(tx, policy), BufferOutput::Memory(rx), Acker::Null),
            ) => policy == when_full && call_ensures(channel::<T>, (max_events,), (tx, rx)),
            _ => false,
        }
    }

    /// What `build` makes of a queue on disk that was opened, or could not be.
    pub open spec fn built_on_disk<T, W, R, E: Display>(
        when_full: WhenFull,
        opened: Result<(W, R, Acker), E>,
        built: Result<(BufferInputCloner<T, W>, BufferOutput<T, R>, Acker), String>,
    ) -> bool {
        match opened {
            Ok((writer, reader, acker)) => built == Ok::<_, String>(
                (
                    BufferInputCloner::<T, W>::Disk(writer, when_full),
                    BufferOutput::<T, R>::Disk(reader),
                    acker,
                ),
            ),
            Err(error) => built matches Err(message) && to_string_from_display_ensures::<E>(
                &error,
                message,
            ),
        }
    }

    /// Builds the buffer: the handle of its write side, its read side and
    /// the acknowledger.
    ///
    /// In memory it is a bounded channel with room for `max_events` records,
    /// and nothing needs acknowledging. On disk it is the queue that `open`
    /// opens in the directory of the sink below the data directory, with the
    /// acknowledger that comes with it; what `open` reports as its failure is
    /// handed on as text. Without a data directory there is no buffer on disk:
    /// `open` is not called then, and need not be callable.
    pub fn build<T, W, R, E: Display, F>(
        &self,
        data_dir: &Option<PathBuf>,
        sink_name: &str,
        open: F,
    ) -> (built: Result<(BufferInputCloner<T, W>, BufferOutput<T, R>, Acker), String>) where
        F: FnOnce(&PathBuf, &str, usize) -> Result<(W, R, Acker), E>,

        requires
            *self matches BufferConfig::Memory { max_events, .. } ==> max_events
                < MAX_CHANNEL_BUFFER,
            *self matches BufferConfig::Disk { max_size, .. } ==> *data_dir matches Some(dir)
                ==> forall|buffer_dir: &str|
                buffer_dir@ == Self::buffer_dir(sink_name@) ==> call_requires(
                    open,
                    (&dir, buffer_dir, max_size),
                ),
        ensures
            built matches Ok((input, _, _)) ==> input.when_full() == self.policy(),
            match *self {
                BufferConfig::Memory { max_events, when_full } => Self::built_in_memory(
                    max_events,
                    when_full,
                    built,
                ),
                BufferConfig::Disk { max_size, when_full } => match *data_dir {
                    None => built matches Err(message) && message@ == Self::missing_data_dir(),
                    Some(dir) => exists|buffer_dir: &str, opened: Result<(W, R, Acker), E>|
                        buffer_dir@ == Self::buffer_dir(sink_name@) && #[trigger] call_ensures(
                            open,
                            (&dir, buffer_dir, max_size),
                            opened,
                        ) && Self::built_on_disk(when_full, opened, built),
                },
            },
    {
        match self {
            BufferConfig::Memory { max_events, when_full } => {
                // Called as a value, so that the contract can name the call
                // that the two halves come from.
                let make = channel::<T>;
                let (tx, rx) = make(*max_events);
                Ok(
                    (
                        BufferInputCloner::Memory(tx, *when_full),
                        BufferOutput::Memory(rx),
                        Acker::Null,
                    ),
                )
            },
            BufferConfig::Disk { max_size, when_full } => {
                match data_dir {
                    None => Err("Must set data_dir to use on-disk buffering.".to_owned()),
                    Some(dir) => {
                        let mut buffer_dir = sink_name.to_owned();
                        buffer_dir.append("_buffer");
                        match open(dir, buffer_dir.as_str(), *max_size) {
                            Ok((writer, reader, acker)) => Ok(
                                (
                                    BufferInputCloner::Disk(writer, *when_full),
                                    BufferOutput::Disk(reader),
                                    acker,
                                ),
                            ),
                            Err(error) => Err(error.to_string()),
                        }
                    },
                }
            },
        }
    }

    /// The sinks whose disk buffers a sink of the given name claims with this
    /// configuration: none for a buffer in memory, its own for one on disk.
    pub open spec fn claims(self, sink_name: Seq<char>) -> Seq<Seq<char>> {
        match self {
            BufferConfig::Memory { .. } => seq![],
            BufferConfig::Disk { .. } => seq![sink_name],
        }
    }

    /// Resources that the sink is using.
    pub fn resources(&self, sink_name: &str) -> (claimed: Vec<Resource>)
        ensures
            claimed@.len() == self.claims(sink_name@).len(),
            claimed@.map_values(|claim: Resource| claim.sink_name()) == self.claims(sink_name@),
    {
        let mut claimed = Vec::new();
        match self {
            BufferConfig::Memory { .. } => {},
            BufferConfig::Disk { .. } => {
                claimed.push(Resource::DiskBuffer(sink_name.to_owned()));
            },
        }
        assert(claimed@.map_values(|claim: Resource| claim.sink_name()) =~= self.claims(
            sink_name@,
        ));
        claimed
    }
}

} // verus!
