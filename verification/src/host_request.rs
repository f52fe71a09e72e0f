//! What a plug-in asks of its host: a set of request flags, and the size it
//! last asked its window to have.

use vstd::prelude::*;

verus! {

/// The plug-in asks to be deactivated and activated again.
pub const RESTART: u32 = 0x1;

/// The plug-in asks to be processed although it sleeps.
pub const PROCESS: u32 = 0x2;

/// The plug-in asks for a call on the control thread.
pub const CALLBACK: u32 = 0x4;

/// The control side asks the audio side to let go of the plug-in.
pub const DEACTIVATE: u32 = 0x8;

/// The plug-in has changed what it would save.
pub const MARK_DIRTY: u32 = 0x10;

/// The plug-in asks for its parameters to be read again.
pub const RESCAN_PARAMS: u32 = 0x20;

/// The plug-in asks for its ports to be read again.
pub const RESCAN_PORTS: u32 = 0x40;

/// The plug-in asks for its window to be shown.
pub const GUI_SHOW: u32 = 0x80;

/// The plug-in asks for its window to be hidden.
pub const GUI_HIDE: u32 = 0x100;

/// The plug-in asks for its window to be resized.
pub const GUI_RESIZE: u32 = 0x200;

/// The plug-in's window was closed.
pub const GUI_CLOSED: u32 = 0x400;

/// The plug-in's window was destroyed.
pub const GUI_DESTROYED: u32 = 0x800;

/// The plug-in has changed how its window may be resized.
pub const GUI_HINTS_CHANGED: u32 = 0x1000;

/// A set of request flags, one bit each.
#[derive(Debug, Clone, Copy, PartialEq, Eq, Structural)]
pub struct RequestFlags {
    pub bits: u32,
}

impl RequestFlags {
    /// Every bit of `flags` is set.
    pub open spec fn has(&self, flags: u32) -> bool {
        self.bits & flags == flags
    }

    /// Some bit of `flags` is set.
    pub open spec fn has_any(&self, flags: u32) -> bool {
        self.bits & flags != 0
    }

    /// The set without a flag.
    pub fn empty() -> (r: Self)
        ensures
            r.bits == 0,
    {
        RequestFlags { bits: 0 }
    }

    /// Whether every bit of `flags` is set.
    #[verifier::when_used_as_spec(has)]
    pub fn contains(&self, flags: u32) -> (r: bool)
        ensures
            r == self.has(flags),
    {
        self.bits & flags == flags
    }

    /// Whether some bit of `flags` is set.
    #[verifier::when_used_as_spec(has_any)]
    pub fn intersects(&self, flags: u32) -> (r: bool)
        ensures
            r == self.has_any(flags),
    {
        self.bits & flags != 0
    }
}

/// A width and a height in pixels.
#[derive(Debug, Clone, Copy, PartialEq, Eq, Structural)]
pub struct GuiSize {
    pub width: u32,
    pub height: u32,
}

/// The requests of one plug-in that are waiting for the host.
#[derive(Debug)]
pub struct HostRequest {
    flags: RequestFlags,
    gui_size: Option<GuiSize>,
}

impl HostRequest {
    /// The flags that are waiting.
    pub closed spec fn pending(&self) -> RequestFlags {
        self.flags
    }

    /// The window size that is waiting, if one was asked for.
    pub closed spec fn pending_gui_size(&self) -> Option<GuiSize> {
        self.gui_size
    }

    /// Nothing waiting.
    pub fn new() -> (r: Self)
        ensures
            r.pending().bits == 0,
            r.pending_gui_size() is None,
    {
        HostRequest { flags: RequestFlags { bits: 0 }, gui_size: None }
    }

    /// Adds flags to those that are waiting.
    pub fn request(&mut self, flags: u32)
        ensures
            final(self).pending().bits == old(self).pending().bits | flags,
            final(self).pending_gui_size() == old(self).pending_gui_size(),
    {
        self.flags = RequestFlags { bits: self.flags.bits | flags };
    }

    /// Takes flags away from those that are waiting.
    pub fn reset(&mut self, flags: u32)
        ensures
            final(self).pending().bits == old(self).pending().bits & !flags,
            final(self).pending_gui_size() == old(self).pending_gui_size(),
    {
        self.flags = RequestFlags { bits: self.flags.bits & !flags };
    }

    /// The flags that are waiting; they go on waiting.
    pub fn load_requested(&self) -> (r: RequestFlags)
        ensures
            r == self.pending(),
    {
        self.flags
    }

    /// Hands out the flags that are waiting and leaves none.
    pub fn fetch_requests(&mut self) -> (r: RequestFlags)
        ensures
            r == old(self).pending(),
            final(self).pending().bits == 0,
            final(self).pending_gui_size() == old(self).pending_gui_size(),
    {
        let r = self.flags;
        self.flags = RequestFlags { bits: 0 };
        r
    }

    /// Hands out the flags that are waiting and takes `CALLBACK` away.
    pub fn load_requests_and_reset_callback(&mut self) -> (r: RequestFlags)
        ensures
            r == old(self).pending(),
            final(self).pending().bits == old(self).pending().bits & !CALLBACK,
            final(self).pending_gui_size() == old(self).pending_gui_size(),
    {
        let r = self.flags;
        self.reset(CALLBACK);
        r
    }

    /// Asks the audio side to let go of the plug-in.
    pub fn request_deactivate(&mut self)
        ensures
            final(self).pending().bits == old(self).pending().bits | DEACTIVATE,
            final(self).pending_gui_size() == old(self).pending_gui_size(),
    {
        self.request(DEACTIVATE);
    }

    /// Asks the audio side to wake the plug-in.
    pub fn request_process(&mut self)
        ensures
            final(self).pending().bits == old(self).pending().bits | PROCESS,
            final(self).pending_gui_size() == old(self).pending_gui_size(),
    {
        self.request(PROCESS);
    }

    /// Takes `DEACTIVATE` away.
    pub fn reset_deactivate(&mut self)
        ensures
            final(self).pending().bits == old(self).pending().bits & !DEACTIVATE,
            final(self).pending_gui_size() == old(self).pending_gui_size(),
    {
        self.reset(DEACTIVATE);
    }

    /// Takes `PROCESS` away.
    pub fn reset_process(&mut self)
        ensures
            final(self).pending().bits == old(self).pending().bits & !PROCESS,
            final(self).pending_gui_size() == old(self).pending_gui_size(),
    {
        self.reset(PROCESS);
    }

    /// Takes `RESTART` away and says whether it was waiting.
    pub fn reset_restart(&mut self) -> (was: bool)
        ensures
            was == old(self).pending().has(RESTART),
            final(self).pending().bits == old(self).pending().bits & !RESTART,
            final(self).pending_gui_size() == old(self).pending_gui_size(),
    {
        let was = self.flags.contains(RESTART);
        self.reset(RESTART);
        was
    }

    /// Takes `MARK_DIRTY` away and says whether it was waiting.
    pub fn state_marked_dirty_and_reset_dirty(&mut self) -> (was: bool)
        ensures
            was == old(self).pending().has(MARK_DIRTY),
            final(self).pending().bits == old(self).pending().bits & !MARK_DIRTY,
            final(self).pending_gui_size() == old(self).pending_gui_size(),
    {
        let was = self.flags.contains(MARK_DIRTY);
        self.reset(MARK_DIRTY);
        was
    }

    /// Asks for the window to be resized to `size`.
    pub fn request_gui_resize(&mut self, size: GuiSize)
        ensures
            final(self).pending().bits == old(self).pending().bits | GUI_RESIZE,
            final(self).pending_gui_size() == Some(size),
    {
        self.gui_size = Some(size);
        self.request(GUI_RESIZE);
    }

    /// The window size that is waiting; it goes on waiting.
    pub fn load_gui_size_request(&self) -> (r: Option<GuiSize>)
        ensures
            r == self.pending_gui_size(),
    {
        self.gui_size
    }

    /// Hands out the window size that is waiting and leaves none.
    pub fn fetch_gui_size_request(&mut self) -> (r: Option<GuiSize>)
        ensures
            r == old(self).pending_gui_size(),
            final(self).pending_gui_size() is None,
            final(self).pending() == old(self).pending(),
    {
        let r = self.gui_size;
        self.gui_size = None;
        r
    }
}

/// A flag that was added is set.
pub proof fn lemma_requested_is_set(bits: u32, flags: u32)
    ensures
        (RequestFlags { bits: bits | flags }).has(flags),
{
    assert((bits | flags) & flags == flags) by (bit_vector);
}

/// A flag that was taken away is not set.
pub proof fn lemma_reset_is_clear(bits: u32, flags: u32)
    requires
        flags != 0,
    ensures
        !(RequestFlags { bits: bits & !flags }).has(flags),
{
    assert(flags != 0 ==> (bits & !flags) & flags != flags) by (bit_vector);
}

/// Adding or taking away flags leaves every flag that shares no bit with them
/// as it was.
pub proof fn lemma_other_flags_keep(bits: u32, flags: u32, other: u32)
    requires
        flags & other == 0,
    ensures
        (RequestFlags { bits: bits | flags }).has(other) == (RequestFlags { bits }).has(other),
        (RequestFlags { bits: bits & !flags }).has(other) == (RequestFlags { bits }).has(other),
{
    assert(flags & other == 0 ==> (bits | flags) & other == bits & other) by (bit_vector);
    assert(flags & other == 0 ==> (bits & !flags) & other == bits & other) by (bit_vector);
}

} // verus!
