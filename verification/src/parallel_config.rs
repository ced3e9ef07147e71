//! Validation of a parallel-port selection and the order in which its transports are tried.

use vstd::prelude::*;

use crate::abi::{ABI_VERSION, GPIO_INVALID_ARGUMENT, GPIO_IO_ERROR, GPIO_UNSUPPORTED};
use crate::parallel_abi::{
    ParallelConfig, PARALLEL_CONFIG_SIZE, PARALLEL_TRANSPORT_AUTO, PARALLEL_TRANSPORT_PPDEV,
    PARALLEL_TRANSPORT_RAW_IO,
};

verus! {

/// ASCII slash, which every device-node path starts with.
pub const PATH_SEPARATOR: u8 = 0x2f;

/// Strictly validated control-plane configuration.
#[derive(Debug)]
pub struct ValidatedParallelConfig {
    /// Explicit transport choice.
    pub transport: u32,
    /// Optional configured ppdev node for ppdev or automatic selection.
    pub ppdev_path: Option<Vec<u8>>,
    /// Explicit raw x86 I/O base for raw or automatic selection.
    pub raw_io_base: Option<u16>,
    /// Data bits that a caller may manipulate.
    pub output_enable_mask: u8,
    /// Initial persistent data-register byte.
    pub output_initial_mask: u8,
}

/// Whether a byte string can name a device node: it is an absolute path.
pub open spec fn is_node_path(path: Seq<u8>) -> bool {
    path.len() > 0 && path[0] == PATH_SEPARATOR
}

/// The ppdev node that a selection offers; one with an embedded terminator is none.
pub open spec fn offered_path(config: ParallelConfig) -> Option<Seq<u8>> {
    match config.ppdev_path {
        Some(path) => if path@.contains(0u8) {
            None
        } else {
            Some(path@)
        },
        None => None,
    }
}

/// The raw I/O base that a selection offers: a data port that has a status port behind it.
pub open spec fn offered_base(config: ParallelConfig) -> Option<u16> {
    if 0 < config.raw_io_base < u16::MAX {
        Some(config.raw_io_base as u16)
    } else {
        None
    }
}

/// Whether a selection names an explicit transport that it also offers, and safe data bits.
pub open spec fn is_acceptable(config: ParallelConfig) -> bool {
    &&& config.struct_size >= PARALLEL_CONFIG_SIZE
    &&& config.abi_version == ABI_VERSION
    &&& config.output_enable_mask <= 0xff
    &&& config.output_initial_mask <= 0xff
    &&& config.output_initial_mask as u8 & !(config.output_enable_mask as u8) == 0
    &&& config.ppdev_path matches Some(path) ==> is_node_path(path@)
    &&& {
        ||| config.transport == PARALLEL_TRANSPORT_PPDEV && offered_path(config) is Some
        ||| config.transport == PARALLEL_TRANSPORT_RAW_IO && offered_base(config) is Some
        ||| config.transport == PARALLEL_TRANSPORT_AUTO && (offered_path(config) is Some
            || offered_base(config) is Some)
    }
}

/// Whether a byte occurs in a byte string.
fn has_byte(bytes: &[u8], wanted: u8) -> (found: bool)
    ensures
        found == bytes@.contains(wanted),
{
    let mut index: usize = 0;
    while index < bytes.len()
        invariant
            index <= bytes@.len(),
            forall|earlier: int| 0 <= earlier < index ==> #[trigger] bytes@[earlier] != wanted,
        decreases bytes@.len() - index,
    {
        if bytes[index] == wanted {
            assert(bytes@[index as int] == wanted);
            return true;
        }
        index += 1;
    }
    false
}

/// Copy a byte string.
fn copied(bytes: &[u8]) -> (copy: Vec<u8>)
    ensures
        copy@ == bytes@,
{
    let mut copy: Vec<u8> = Vec::new();
    let mut index: usize = 0;
    while index < bytes.len()
        invariant
            index <= bytes@.len(),
            copy@ == bytes@.take(index as int),
        decreases bytes@.len() - index,
    {
        copy.push(bytes[index]);
        index += 1;
        assert(copy@ =~= bytes@.take(index as int));
    }
    assert(copy@ =~= bytes@);
    copy
}

/// The next attempt at opening a transport.
#[derive(Clone, Copy, Debug, PartialEq, Eq, Structural)]
pub enum OpenAttempt {
    /// Open and claim the configured ppdev node.
    Ppdev,
    /// Open the raw I/O range that starts at this base.
    RawIo(u16),
    /// No attempt is left; this is the result.
    Refused(i32),
}

impl ValidatedParallelConfig {
    /// Only enabled data bits start high, and an offered base leaves room for its status port.
    pub open spec fn well_formed(self) -> bool {
        &&& self.output_initial_mask & !self.output_enable_mask == 0
        &&& self.raw_io_base matches Some(base) ==> 0 < base < u16::MAX
    }

    /// Whether this is the setup that an acceptable selection asks for.
    pub open spec fn is_setup_of(self, config: ParallelConfig) -> bool {
        &&& self.transport == config.transport
        &&& match self.ppdev_path {
            Some(path) => offered_path(config) == Some(path@),
            None => offered_path(config) is None,
        }
        &&& self.raw_io_base == offered_base(config)
        &&& self.output_enable_mask == config.output_enable_mask
        &&& self.output_initial_mask == config.output_initial_mask
    }

    /// Validate a configuration without opening a host resource.
    pub fn from_ffi(config: Option<&ParallelConfig>) -> (validated: Option<Self>)
        ensures
            validated is Some <==> (config matches Some(selection) && is_acceptable(*selection)),
            validated matches Some(setup) ==> setup.well_formed() && setup.is_setup_of(*config->0),
    {
        let config: &ParallelConfig = match config {
            Some(config) => config,
            None => {
                return None;
            },
        };
        if config.struct_size < PARALLEL_CONFIG_SIZE || config.abi_version != ABI_VERSION || !(
        config.transport == PARALLEL_TRANSPORT_AUTO || config.transport == PARALLEL_TRANSPORT_PPDEV
            || config.transport == PARALLEL_TRANSPORT_RAW_IO) || config.output_enable_mask > 0xff
            || config.output_initial_mask > 0xff {
            return None;
        }
        let output_enable_mask: u8 = config.output_enable_mask as u8;
        let output_initial_mask: u8 = config.output_initial_mask as u8;
        if output_initial_mask & !output_enable_mask != 0 {
            return None;
        }
        let ppdev_path: Option<Vec<u8>> = match &config.ppdev_path {
            None => None,
            Some(path) => {
                if path.len() == 0 || path[0] != PATH_SEPARATOR {
                    return None;
                }
                if has_byte(path.as_slice(), 0) {
                    None
                } else {
                    Some(copied(path.as_slice()))
                }
            },
        };
        let raw_io_base: Option<u16> = if config.raw_io_base != 0 && config.raw_io_base
            < u16::MAX as u32 {
            Some(config.raw_io_base as u16)
        } else {
            None
        };
        if (config.transport == PARALLEL_TRANSPORT_PPDEV && ppdev_path.is_none()) || (
        config.transport == PARALLEL_TRANSPORT_RAW_IO && raw_io_base.is_none()) || (config.transport
            == PARALLEL_TRANSPORT_AUTO && ppdev_path.is_none() && raw_io_base.is_none()) {
            return None;
        }
        Some(
            Self {
                transport: config.transport,
                ppdev_path,
                raw_io_base,
                output_enable_mask,
                output_initial_mask,
            },
        )
    }

    /// The attempt at the raw I/O range; a target without direct I/O refuses it.
    pub open spec fn raw_io_attempt(self, direct_io: bool) -> OpenAttempt {
        if !direct_io {
            OpenAttempt::Refused(GPIO_UNSUPPORTED)
        } else {
            match self.raw_io_base {
                Some(base) => OpenAttempt::RawIo(base),
                None => OpenAttempt::Refused(GPIO_INVALID_ARGUMENT),
            }
        }
    }

    /// The first attempt at opening the selected transport.
    pub open spec fn first_open(self, direct_io: bool) -> OpenAttempt {
        if self.transport == PARALLEL_TRANSPORT_PPDEV {
            if self.ppdev_path is Some {
                OpenAttempt::Ppdev
            } else {
                OpenAttempt::Refused(GPIO_INVALID_ARGUMENT)
            }
        } else if self.transport == PARALLEL_TRANSPORT_RAW_IO {
            self.raw_io_attempt(direct_io)
        } else if self.transport == PARALLEL_TRANSPORT_AUTO {
            if self.ppdev_path is Some {
                OpenAttempt::Ppdev
            } else {
                self.raw_io_attempt(direct_io)
            }
        } else {
            OpenAttempt::Refused(GPIO_INVALID_ARGUMENT)
        }
    }

    /// The attempt behind one that failed: only automatic selection goes from ppdev to raw I/O.
    pub open spec fn open_after(
        self,
        failed: OpenAttempt,
        error: i32,
        direct_io: bool,
    ) -> OpenAttempt {
        if failed is Ppdev && self.transport == PARALLEL_TRANSPORT_AUTO {
            self.raw_io_attempt(direct_io)
        } else {
            OpenAttempt::Refused(error)
        }
    }

    /// Choose how the raw I/O range is opened.
    fn try_raw_io(&self, direct_io: bool) -> (attempt: OpenAttempt)
        ensures
            attempt == self.raw_io_attempt(direct_io),
    {
        if !direct_io {
            return OpenAttempt::Refused(GPIO_UNSUPPORTED);
        }
        match self.raw_io_base {
            Some(base) => OpenAttempt::RawIo(base),
            None => OpenAttempt::Refused(GPIO_INVALID_ARGUMENT),
        }
    }

    /// Choose the first attempt at opening the explicitly configured transport, on a target that
    /// has direct I/O or not.
    pub fn begin_open(&self, direct_io: bool) -> (attempt: OpenAttempt)
        ensures
            attempt == self.first_open(direct_io),
    {
        match self.transport {
            PARALLEL_TRANSPORT_PPDEV => if self.ppdev_path.is_some() {
                OpenAttempt::Ppdev
            } else {
                OpenAttempt::Refused(GPIO_INVALID_ARGUMENT)
            },
            PARALLEL_TRANSPORT_RAW_IO => self.try_raw_io(direct_io),
            PARALLEL_TRANSPORT_AUTO => if self.ppdev_path.is_some() {
                OpenAttempt::Ppdev
            } else {
                self.try_raw_io(direct_io)
            },
            _ => OpenAttempt::Refused(GPIO_INVALID_ARGUMENT),
        }
    }

    /// Choose what follows an attempt that failed with `error`, on a target that has direct I/O or
    /// not.
    pub fn next_open(&self, failed: OpenAttempt, error: i32, direct_io: bool) -> (attempt:
        OpenAttempt)
        ensures
            attempt == self.open_after(failed, error, direct_io),
    {
        match failed {
            OpenAttempt::Ppdev => if self.transport == PARALLEL_TRANSPORT_AUTO {
                self.try_raw_io(direct_io)
            } else {
                OpenAttempt::Refused(error)
            },
            _ => OpenAttempt::Refused(error),
        }
    }
}

/// Convert the outcome of a one-byte positional I/O operation to a portable result.
///
/// A register operation must transfer exactly one byte; an end of file and an
/// error are both unsafe for a GPIO state transition.
pub fn exact_raw_io_byte<E>(outcome: Result<usize, E>) -> (result: Result<(), i32>)
    ensures
        outcome matches Ok(count) && count == 1 ==> result == Ok::<(), i32>(()),
        !(outcome matches Ok(count) && count == 1) ==> result == Err::<(), i32>(GPIO_IO_ERROR),
{
    match outcome {
        Ok(1) => Ok(()),
        _ => Err(GPIO_IO_ERROR),
    }
}

/// The adapter opens only what was explicitly offered, ppdev before raw I/O, and never more than
/// these two. An accepted selection is always tried, except that a target without direct I/O
/// answers every selection that comes down to raw I/O as unsupported.
pub proof fn law_only_offered_transports_are_tried(
    config: ParallelConfig,
    setup: ValidatedParallelConfig,
    error: i32,
    direct_io: bool,
)
    requires
        is_acceptable(config),
        setup.well_formed(),
        setup.is_setup_of(config),
    ensures
        ({
            let first = setup.first_open(direct_io);
            let second = setup.open_after(OpenAttempt::Ppdev, error, direct_io);
            &&& direct_io ==> first !is Refused
            &&& first matches OpenAttempt::Refused(code) ==> code == GPIO_UNSUPPORTED
            &&& first is Ppdev ==> offered_path(config) is Some && config.transport
                != PARALLEL_TRANSPORT_RAW_IO
            &&& first matches OpenAttempt::RawIo(base) ==> direct_io && offered_base(config)
                == Some(base) && config.transport != PARALLEL_TRANSPORT_PPDEV
            &&& second !is Ppdev
            &&& second matches OpenAttempt::RawIo(base) ==> direct_io && offered_base(config)
                == Some(base) && config.transport == PARALLEL_TRANSPORT_AUTO
            &&& !direct_io && config.transport == PARALLEL_TRANSPORT_AUTO ==> second
                == OpenAttempt::Refused(GPIO_UNSUPPORTED)
        }),
        forall|base: u16|
            #[trigger] setup.open_after(OpenAttempt::RawIo(base), error, direct_io)
                == OpenAttempt::Refused(error),
{
}

} // verus!
