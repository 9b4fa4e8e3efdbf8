//! The plain values behind the pseudoterminal session: the geometry that the
//! terminal reports to the shell, and the order of the steps that start the
//! shell.

use vstd::prelude::*;
use crate::error::Error;
use crate::term::{Dimention, Term};

verus! {

/// The shell that a session runs.
pub const SHELL: &'static str = "/bin/dash";

/// The one argument of the shell. Its leading hyphen makes it a login shell.
pub const LOGIN_ARGUMENT: &'static str = "-";

/// The whole environment of the shell.
pub const ENVIRONMENT: &'static str = "TERM=dumb";

/// The geometry of a terminal, as the window-size request carries it.
#[derive(Debug, Clone, Copy, PartialEq, Eq, Structural)]
pub struct WindowSize {
    pub rows: u16,
    pub cols: u16,
    pub xpixel: u16,
    pub ypixel: u16,
}

/// The geometry to report for a grid: its rows and columns, each cut to the
/// sixteen bits of the request, and no size in pixels.
pub fn window_size<T>(term: &Term<T>) -> (size: WindowSize)
    ensures
        size.rows == term@.height % 0x1_0000,
        size.cols == term@.width % 0x1_0000,
        size.xpixel == 0,
        size.ypixel == 0,
{
    let height: u32 = term.height();
    let width: u32 = term.width();
    assert(height as u16 == height % 0x1_0000) by (bit_vector);
    assert(width as u16 == width % 0x1_0000) by (bit_vector);
    WindowSize {
        rows: #[verifier::truncate] (height as u16),
        cols: #[verifier::truncate] (width as u16),
        xpixel: 0,
        ypixel: 0,
    }
}

/// The side of a fork.
#[derive(Debug, Clone, Copy, PartialEq, Eq, Structural)]
pub enum Branch {
    /// The process that goes on to run the terminal.
    Continuing,
    /// The process that is replaced by the shell.
    Replaced,
}

/// One step of starting the shell.
#[derive(Debug, Clone, Copy, PartialEq, Eq, Structural)]
pub enum Step {
    /// Close this process's copy of the master descriptor.
    CloseMaster,
    /// Close this process's copy of the slave descriptor.
    CloseSlave,
    /// Start a new session, which has no controlling terminal.
    NewSession,
    /// Make the slave the controlling terminal of the session.
    AttachTerminal,
    /// Duplicate the slave onto this standard descriptor.
    Redirect(i32),
    /// Replace the program by the shell.
    Exec,
}

/// The steps of one side of the fork, in order.
///
/// The continuing process only gives up the slave. The other process gives up
/// the master, starts a session, takes the slave as its controlling terminal
/// and as its standard input, output and error, gives up the now redundant
/// slave descriptor, and becomes the shell.
pub open spec fn spec_spawn_steps(branch: Branch) -> Seq<Step> {
    match branch {
        Branch::Continuing => seq![Step::CloseSlave],
        Branch::Replaced => seq![
            Step::CloseMaster,
            Step::NewSession,
            Step::AttachTerminal,
            Step::Redirect(0),
            Step::Redirect(1),
            Step::Redirect(2),
            Step::CloseSlave,
            Step::Exec,
        ],
    }
}

/// The steps of one side of the fork, in order. A step that fails ends the
/// sequence: none of the later steps may run.
pub fn spawn_steps(branch: Branch) -> (steps: Vec<Step>)
    ensures
        steps@ == spec_spawn_steps(branch),
{
    let mut steps: Vec<Step> = Vec::new();
    match branch {
        Branch::Continuing => {
            steps.push(Step::CloseSlave);
        },
        Branch::Replaced => {
            steps.push(Step::CloseMaster);
            steps.push(Step::NewSession);
            steps.push(Step::AttachTerminal);
            steps.push(Step::Redirect(0));
            steps.push(Step::Redirect(1));
            steps.push(Step::Redirect(2));
            steps.push(Step::CloseSlave);
            steps.push(Step::Exec);
        },
    }
    steps
}

/// What a side of the fork reports once all of its steps have returned. The
/// continuing process has spawned the shell. In the other process the last
/// step returns only when the shell could not be started, so that side never
/// goes on to run the terminal.
pub fn spawn_outcome(branch: Branch) -> (outcome: Result<(), Error>)
    ensures
        outcome == (match branch {
            Branch::Continuing => Ok::<(), Error>(()),
            Branch::Replaced => Err::<(), Error>(Error::CantSpawn),
        }),
{
    match branch {
        Branch::Continuing => Ok(()),
        Branch::Replaced => Err(Error::CantSpawn),
    }
}

} // verus!
