//! Starting the engine and shutting it down.
//!
//! The engine must be started once, before any other call on any thread, and
//! starting it twice is undefined. Every other call of this layer assumes
//! that it has been started.

use vstd::prelude::*;
use vstd::string::*;
use crate::engine::{Call, EngineCall};
use crate::text::{has_nul, CText};

verus! {

/// The name under which the engine is started: the program's name, or the
/// empty name where there is none or it holds a zero byte.
pub open spec fn program_bytes(argv0: Option<&str>) -> Seq<u8> {
    match argv0 {
        Some(name) => if has_nul(name.spec_bytes()) {
            seq![]
        } else {
            name.spec_bytes()
        },
        None => seq![],
    }
}

/// The name under which the engine is started.
pub fn program_name(argv0: Option<&str>) -> (name: CText)
    ensures
        name@ == program_bytes(argv0),
{
    match argv0 {
        Some(name) => match CText::new(name) {
            Ok(name) => name,
            Err(_) => CText::empty(),
        },
        None => CText::empty(),
    }
}

/// The call that starts the engine. Its status decides what follows: see
/// `capture_after`. Starting the engine twice is undefined; nothing here
/// keeps a caller from it.
pub fn vips_init(argv0: Option<&str>) -> (call: EngineCall)
    ensures
        call@ == (Call::Init { program: program_bytes(argv0) }),
{
    EngineCall::Init { program: program_name(argv0) }
}

/// The call that starts the engine, for a caller that ends the process where
/// the engine does not start. Its status decides what follows: see
/// `exit_after`.
pub fn vips_init_or_exit(argv0: Option<&str>) -> (call: EngineCall)
    ensures
        call@ == (Call::Init { program: program_bytes(argv0) }),
{
    vips_init(argv0)
}

/// What follows the status of a start that must not fail: after a failure
/// the engine reports its error buffer and ends the process.
pub fn exit_after(status: i32) -> (call: Option<EngineCall>)
    ensures
        status == 0 ==> call is None,
        status != 0 ==> call is Some && call->Some_0@ == Call::ErrorExit,
{
    if status != 0 {
        Some(EngineCall::ErrorExit)
    } else {
        None
    }
}

/// Remembers whether the start of the engine has been asked for, so that it
/// is asked for once at most.
#[derive(Debug)]
pub struct InitOnce {
    fired: bool,
}

impl InitOnce {
    /// Whether the start has been asked for.
    pub closed spec fn fired(&self) -> bool {
        self.fired
    }

    /// Nothing has been asked for yet.
    pub fn new() -> (once: InitOnce)
        ensures
            !once.fired(),
    {
        InitOnce { fired: false }
    }

    /// Whether the start has been asked for.
    pub fn has_fired(&self) -> (fired: bool)
        ensures
            fired == self.fired(),
    {
        self.fired
    }
}

/// Asks for the start of the engine the first time it is called on `once`,
/// and for nothing afterwards.
pub fn ensure_vips_init_or_exit(once: &mut InitOnce, argv0: Option<&str>) -> (call: Option<
    EngineCall,
>)
    ensures
        final(once).fired(),
        old(once).fired() ==> call is None,
        !old(once).fired() ==> call is Some && call->Some_0@ == (Call::Init {
            program: program_bytes(argv0),
        }),
{
    if once.fired {
        None
    } else {
        once.fired = true;
        Some(vips_init_or_exit(argv0))
    }
}

/// The call that shuts the engine down.
pub fn vips_shutdown() -> (call: EngineCall)
    ensures
        call@ == Call::Shutdown,
{
    EngineCall::Shutdown
}

/// Stands for a started engine: made with the call that starts it and given
/// up for the call that shuts it down. There should be one at most, and it
/// must outlive every image and operation.
#[derive(Debug)]
pub struct VipsHandle {}

impl VipsHandle {
    /// The handle, with the call that starts the engine.
    pub fn new(argv0: Option<&str>) -> (r: (VipsHandle, EngineCall))
        ensures
            r.1@ == (Call::Init { program: program_bytes(argv0) }),
    {
        (VipsHandle {  }, vips_init_or_exit(argv0))
    }

    /// Gives the handle up for the call that shuts the engine down.
    pub fn shutdown(self) -> (call: EngineCall)
        ensures
            call@ == Call::Shutdown,
    {
        vips_shutdown()
    }
}

} // verus!
