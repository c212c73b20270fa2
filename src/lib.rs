//! Core of a machine-vision camera controller: a device registry with stable
//! identities, a per-device session state machine, a parameter tree that
//! mirrors a device's feature description, and the pixel-conversion pipeline
//! that turns raw payloads into BGRA frames.
pub mod convert;
pub mod features;
pub mod frame;
pub mod genapi;
pub mod identity;
pub mod registry;
pub mod selector;
pub mod session;

use features::Features;
use frame::Frame;
use identity::{CameraId, DeviceInfo};
use registry::{Context, ScanReport};
use vstd::prelude::*;

verus! {

/// A value that a feature refused.
#[derive(Clone, Debug, PartialEq, Eq)]
pub enum Rejected {
    /// An integer value, or an enumeration code that no entry carries.
    Code(i64),
    /// The text of a floating-point value.
    Text(String),
}

/// Failures that the core reports to its callers.
#[derive(Clone, Debug, PartialEq, Eq)]
pub enum Error {
    /// No device with this identity is known.
    NotFound(CameraId),
    /// The operation needs an open control channel.
    NotOpen,
    /// The transport refused to open or close the control channel.
    ControlError(String),
    /// The transport refused to start or stop streaming.
    StreamError(String),
    /// A feature could not be described, read or written.
    ProtocolError(String),
    /// A value lies outside what a feature accepts.
    RangeError(Rejected),
    /// A payload could not be converted into an image.
    ConversionError(convert::Error),
    /// The device description is malformed, or an operation was driven out
    /// of order.
    InternalError(String),
}

/// Start-up options.
#[derive(Clone, Copy, Debug, Default, PartialEq, Eq, Structural)]
pub struct Flags {
    /// Outline the layout of the user interface.
    pub debug: bool,
}

/// The process state: the device registry, the parameter trees of the
/// devices, and the consumer of the selected device's stream. `H` is the
/// type of device handles, `N` that of feature handles, `R` that of the
/// receiving end of a payload channel.
pub struct App<H, N, R> {
    pub ctx: Context<H>,
    pub features: Features<N>,
    pub frame: Frame<R>,
    pub debug: bool,
}

impl<H, N, R> App<H, N, R> {
    /// An empty state: no devices, no trees, no stream.
    pub fn new(flags: Flags) -> (r: App<H, N, R>)
        ensures
            r.ctx.wf(),
            r.ctx.slots() == Map::<u64, registry::Slot<H>>::empty(),
            r.ctx.selection() is None,
            r.features.trees() == Map::<u64, genapi::GenApi<N>>::empty(),
            r.frame.attached() is None,
            r.debug == flags.debug,
    {
        App { ctx: Context::new(), features: Features::new(), frame: Frame::new(), debug: flags.debug }
    }

    /// Begins a lifecycle request on the selected device; with no device
    /// selected there is nothing to do.
    pub fn control(&mut self, req: session::Request) -> (r: Option<(CameraId, session::Step)>)
        requires
            old(self).ctx.wf(),
        ensures
            final(self).ctx.wf(),
            final(self).ctx.selection() == old(self).ctx.selection(),
            match old(self).ctx.selection() {
                None => r is None && final(self).ctx.slots() == old(self).ctx.slots(),
                Some(id) => match r {
                    Some((rid, step)) => {
                        let (v, expected) = session::begin_spec(old(self).ctx.slots()[id.0].session@, req);
                        &&& rid == id
                        &&& registry::session_replaced(old(self).ctx.slots(), final(self).ctx.slots(), id.0, v)
                        &&& session::same_outcome(step, expected)
                    },
                    None => false,
                },
            },
    {
        match self.ctx.selected() {
            None => None,
            Some(id) => match self.ctx.begin(id, req) {
                Ok(step) => Some((id, step)),
                Err(_) => None,
            },
        }
    }

    /// Reconciles the registry with an enumeration, as `Context::scan` does,
    /// and drops the parameter trees of the devices that disappeared.
    pub fn scan(&mut self, found: Vec<(DeviceInfo, H)>) -> (report: ScanReport<H>)
        requires
            old(self).ctx.wf(),
        ensures
            final(self).ctx.wf(),
            registry::scanned(old(self).ctx, final(self).ctx, found@, report),
            forall|k: u64| #[trigger] final(self).features.trees().contains_key(k)
                ==> old(self).features.trees().contains_key(k)
                    && final(self).features.trees()[k] == old(self).features.trees()[k],
            forall|k: u64| #[trigger] old(self).features.trees().contains_key(k) && registry::is_found(found@, k)
                ==> final(self).features.trees().contains_key(k),
            forall|k: u64| #[trigger] old(self).ctx.slots().contains_key(k) && !registry::is_found(found@, k)
                ==> !final(self).features.trees().contains_key(k),
    {
        let report = self.ctx.scan(found);
        let mut i: usize = 0;
        let ghost mid = self.features.trees();
        let ghost c = self.ctx;
        while i < report.removed.len()
            invariant
                i <= report.removed@.len(),
                self.ctx == c,
                forall|k: u64| #[trigger] self.features.trees().contains_key(k)
                    ==> mid.contains_key(k) && self.features.trees()[k] == mid[k],
                forall|k: u64| #[trigger] mid.contains_key(k) && registry::is_found(found@, k)
                    ==> self.features.trees().contains_key(k),
                forall|r: int| 0 <= r < report.removed@.len() ==> !registry::is_found(found@, #[trigger] report.removed@[r].id.0),
                forall|r: int| 0 <= r < i ==> !self.features.trees().contains_key(#[trigger] report.removed@[r].id.0),
            decreases report.removed@.len() - i,
        {
            let id = report.removed[i].id;
            self.features.forget(id);
            i = i + 1;
        }
        proof {
            assert forall|k: u64| #[trigger] old(self).ctx.slots().contains_key(k) && !registry::is_found(found@, k)
                implies !self.features.trees().contains_key(k) by {
                let r = choose|r: int| 0 <= r < report.removed@.len() && #[trigger] report.removed@[r].id.0 == k;
                assert(!self.features.trees().contains_key(report.removed@[r].id.0));
            }
        }
        report
    }
}

} // verus!
