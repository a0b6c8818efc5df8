//! Client-side logic for the Hyprland control socket: discovery of running
//! instances, the default-instance cache, the command exchange and the
//! command catalogue. The library performs no I/O; callers feed it what they
//! read and carry out what it asks for.

use crate::ctl::instance::{Instance, InstanceView};
use crate::error::{HyprError, HyprErrorView};
use vstd::prelude::*;

pub mod ctl;
pub mod error;
pub mod shared;
pub mod text;
pub mod transport;

verus! {

/// The result type used everywhere in the crate.
pub type Result<T> = std::result::Result<T, HyprError>;

/// The cell that holds the default instance: empty until an instance is
/// stored, and never changed after that.
pub struct DefaultInstance {
    slot: Option<Instance>,
}

impl View for DefaultInstance {
    type V = Option<InstanceView>;

    closed spec fn view(&self) -> Option<InstanceView> {
        match self.slot {
            Some(instance) => Some(instance@),
            None => None,
        }
    }
}

/// What a call for the default instance leaves in a cell that held `cell`,
/// where constructing the instance, if it comes to that, gives `built`: a
/// stored instance stays, an empty cell takes the instance that was built,
/// and stays empty where none was.
pub open spec fn cell_after(
    cell: Option<InstanceView>,
    built: std::result::Result<InstanceView, HyprErrorView>,
) -> Option<InstanceView> {
    match cell {
        Some(stored) => Some(stored),
        None => match built {
            Ok(instance) => Some(instance),
            Err(_) => None,
        },
    }
}

/// What a call for the default instance returns from a cell that held
/// `cell`, where constructing the instance, if it comes to that, gives
/// `built`: the stored instance, or else what construction gave.
pub open spec fn answer(
    cell: Option<InstanceView>,
    built: std::result::Result<InstanceView, HyprErrorView>,
) -> std::result::Result<InstanceView, HyprErrorView> {
    match cell {
        Some(stored) => Ok(stored),
        None => built,
    }
}

/// The mathematical value of the outcome of constructing an instance.
pub open spec fn built_view(built: Result<Instance>) -> std::result::Result<
    InstanceView,
    HyprErrorView,
> {
    match built {
        Ok(instance) => Ok(instance@),
        Err(error) => Err(error@),
    }
}

/// The mathematical value of the outcome of a call for the default instance.
pub open spec fn answer_view(returned: Result<&Instance>) -> std::result::Result<
    InstanceView,
    HyprErrorView,
> {
    match returned {
        Ok(instance) => Ok(instance@),
        Err(error) => Err(error@),
    }
}

impl DefaultInstance {
    /// An empty cell.
    pub fn new() -> (r: Self)
        ensures
            r@ is None,
    {
        DefaultInstance { slot: None }
    }

    /// The stored instance, if there is one.
    pub fn get(&self) -> (r: Option<&Instance>)
        ensures
            match r {
                Some(instance) => self@ == Some(instance@),
                None => self@ is None,
            },
    {
        self.slot.as_ref()
    }

    /// Stores `instance` where the cell is empty. A cell that holds an
    /// instance keeps it, and `instance` is handed back.
    pub fn set(&mut self, instance: Instance) -> (r: std::result::Result<(), Instance>)
        ensures
            final(self)@ == cell_after(old(self)@, Ok(instance@)),
            old(self)@ is None <==> r is Ok,
            r is Err ==> r.unwrap_err() == instance,
    {
        if self.slot.is_none() {
            self.slot = Some(instance);
            Ok(())
        } else {
            Err(instance)
        }
    }
}

/// The default instance: the one stored in `cell`, or, where the cell is
/// empty, the one that `construct` gives, which is then stored. `construct`
/// runs only where the cell is empty, and a failure of it is returned and
/// leaves the cell empty, so that a later call constructs again.
pub fn default_instance<F: FnOnce() -> Result<Instance>>(
    cell: &mut DefaultInstance,
    construct: F,
) -> (r: Result<&Instance>)
    requires
        old(cell)@ is None ==> construct.requires(()),
    ensures
        old(cell)@ is Some ==> final(cell)@ == old(cell)@ && answer_view(r) == Ok::<
            InstanceView,
            HyprErrorView,
        >(old(cell)@.unwrap()),
        old(cell)@ is None ==> exists|built: Result<Instance>|
            construct.ensures((), built) && final(cell)@ == cell_after(
                old(cell)@,
                built_view(built),
            ) && answer_view(r) == answer(old(cell)@, built_view(built)),
{
    if cell.slot.is_none() {
        let built = construct();
        let ghost outcome = built;
        match built {
            Ok(instance) => {
                cell.slot = Some(instance);
                assert(cell@ == cell_after(old(cell)@, built_view(outcome)));
            },
            Err(error) => {
                return Err(error);
            },
        }
    }
    Ok(cell.slot.as_ref().unwrap())
}

/// The default instance, for callers that have no use for a failure: as
/// [`default_instance`], but `construct` must not fail where the cell is
/// empty.
pub fn default_instance_panic<F: FnOnce() -> Result<Instance>>(
    cell: &mut DefaultInstance,
    construct: F,
) -> (r: &Instance)
    requires
        old(cell)@ is None ==> construct.requires(()) && forall|built: Result<Instance>|
            construct.ensures((), built) ==> built is Ok,
    ensures
        old(cell)@ is Some ==> final(cell)@ == old(cell)@ && r@ == old(cell)@.unwrap(),
        old(cell)@ is None ==> exists|built: Instance|
            construct.ensures((), Ok(built)) && final(cell)@ == Some(built@) && r@ == built@,
{
    default_instance(cell, construct).expect("Default instance could not get initialized")
}

/// Once a call for the default instance has succeeded, every later call
/// returns the same instance and leaves the cell as it is, whatever
/// constructing would give by then.
pub proof fn default_instance_is_stable(
    cell: Option<InstanceView>,
    first: std::result::Result<InstanceView, HyprErrorView>,
    second: std::result::Result<InstanceView, HyprErrorView>,
)
    requires
        answer(cell, first) is Ok,
    ensures
        answer(cell_after(cell, first), second) == answer(cell, first),
        cell_after(cell_after(cell, first), second) == cell_after(cell, first),
{
}

/// A call that fails leaves the cell empty, so that a later call for which
/// constructing succeeds returns the instance constructed then.
pub proof fn failure_is_not_stored(
    cell: Option<InstanceView>,
    error: HyprErrorView,
    later: InstanceView,
)
    requires
        answer(cell, Err(error)) is Err,
    ensures
        cell_after(cell, Err(error)) is None,
        answer(cell_after(cell, Err(error)), Ok(later)) == Ok::<InstanceView, HyprErrorView>(
            later,
        ),
{
}

} // verus!
