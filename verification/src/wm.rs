//! The reparenting window manager's state machine.
//!
//! The manager owns a table of (frame, client) pairs and the state of an
//! in-progress drag.  Every decision it takes is a function from that
//! state and one inbound event to the next state and a sequence of
//! outgoing requests; an unverified shell performs the requests on the
//! real connection and feeds the next event back in.  Inputs that only
//! the server can produce — a client's geometry, a fresh window
//! identifier for a frame — are passed in as arguments.

use vstd::prelude::*;
use crate::Rectangle;
use crate::event::{Event, EventMask, MouseButton, spec_combine_masks};
use crate::window::Geometry;

verus! {

/// One outgoing X11 request, as the window manager decides it.  The shell
/// translates each into the corresponding protocol call.
#[derive(Clone, Copy, Debug, PartialEq, Eq, Structural)]
pub enum Request {
    /// Create a window with the given identifier and rectangle, as an
    /// input-output child of the root with zero border width.
    CreateWindow { window: u32, rectangle: Rectangle },
    MapWindow { window: u32 },
    UnmapWindow { window: u32 },
    /// Set all four of the window's x, y, width and height.
    ConfigureWindow { window: u32, rectangle: Rectangle },
    /// Select the event classes combined in `mask` on the window.
    SetEventMask { window: u32, mask: u32 },
    /// Make `window` a child of `parent` at the given offset.
    ReparentWindow { window: u32, parent: u32, x_offset: i16, y_offset: i16 },
    DestroyWindow { window: u32 },
    /// Grab the pointer on the root for the duration of a drag.
    GrabPointer,
    UngrabPointer,
}

/// A frame the manager owns and the client window it wraps.
#[derive(Clone, Copy, Debug, PartialEq, Eq, Structural)]
pub struct FramedClient {
    pub frame: u32,
    pub client: u32,
}

/// The number of pixels the frame reserves above the client for its
/// decoration: the frame is the client's rectangle grown by this many
/// pixels of height, and the client sits this far down inside it.
pub const FRAME_BAND: u16 = 30;

/// The rectangle of the frame wrapping a client with the given rectangle:
/// same position, same width, height grown by the decoration band.
pub open spec fn spec_frame_rectangle(client: Rectangle) -> Rectangle
    recommends
        client.height + FRAME_BAND <= u16::MAX,
{
    Rectangle {
        x: client.x,
        y: client.y,
        width: client.width,
        height: (client.height + FRAME_BAND) as u16,
    }
}

/// Computes the frame rectangle for a client rectangle.
pub fn frame_rectangle(client: Rectangle) -> (r: Rectangle)
    requires
        client.height + FRAME_BAND <= u16::MAX,
    ensures
        r == spec_frame_rectangle(client),
{
    Rectangle { x: client.x, y: client.y, width: client.width, height: client.height + FRAME_BAND }
}

/// The frame rectangle keeps the client's position and width exactly and
/// adds the decoration band to the height; together with the fixed
/// reparent offset this pins the framing geometry down.
pub proof fn lemma_frame_geometry(client: Rectangle)
    requires
        client.height + FRAME_BAND <= u16::MAX,
    ensures
        spec_frame_rectangle(client).x == client.x,
        spec_frame_rectangle(client).y == client.y,
        spec_frame_rectangle(client).width == client.width,
        spec_frame_rectangle(client).height == client.height + FRAME_BAND,
{
}

/// The event classes selected on the root window at startup: the two
/// substructure classes that make this client the window manager, and the
/// pointer buttons that start and end a drag.
pub open spec fn spec_startup_classes() -> Seq<EventMask> {
    seq![
        EventMask::SubstructureNotify,
        EventMask::SubstructureRedirect,
        EventMask::ButtonPress,
        EventMask::ButtonRelease,
    ]
}

/// The event classes the root window selects at startup.  Setting this
/// mask fails with an access error when another window manager holds the
/// substructure redirection already.
pub fn startup_event_mask() -> (r: Vec<EventMask>)
    ensures
        r@ == spec_startup_classes(),
{
    let masks: Vec<EventMask> = vec![
        EventMask::SubstructureNotify,
        EventMask::SubstructureRedirect,
        EventMask::ButtonPress,
        EventMask::ButtonRelease,
    ];
    proof {
        assert(masks@ =~= spec_startup_classes());
    }
    masks
}

/// The event classes every frame selects: substructure notifications and
/// redirection for the client it wraps.
pub open spec fn spec_frame_classes() -> Seq<EventMask> {
    seq![EventMask::SubstructureNotify, EventMask::SubstructureRedirect]
}

/// The mask word every frame selects, the combination of
/// [`spec_frame_classes`].
pub fn frame_event_mask() -> (r: u32)
    ensures
        r == spec_combine_masks(spec_frame_classes()),
{
    let masks: Vec<EventMask> = vec![EventMask::SubstructureNotify, EventMask::SubstructureRedirect];
    proof {
        assert(masks@ =~= spec_frame_classes());
    }
    EventMask::combine(&masks)
}

/// Whether the drag arithmetic of one motion step stays within the signed
/// 16-bit coordinates of the wire: the pointer delta against the anchor
/// and the frame's shifted position must both be representable.
pub open spec fn spec_motion_fits(start: (i16, i16), geometry: Rectangle, x: i16, y: i16) -> bool {
    &&& i16::MIN <= x - start.0 <= i16::MAX
    &&& i16::MIN <= y - start.1 <= i16::MAX
    &&& i16::MIN <= geometry.x + x - start.0 <= i16::MAX
    &&& i16::MIN <= geometry.y + y - start.1 <= i16::MAX
}

/// The dragged frame's rectangle after one motion step: its position
/// shifted by the pointer's delta against the anchor, its extent kept.
pub open spec fn spec_moved_rectangle(
    geometry: Rectangle,
    start: (i16, i16),
    x: i16,
    y: i16,
) -> Rectangle
    recommends
        spec_motion_fits(start, geometry, x, y),
{
    Rectangle {
        x: (geometry.x + x - start.0) as i16,
        y: (geometry.y + y - start.1) as i16,
        width: geometry.width,
        height: geometry.height,
    }
}

/// Whether `p` equals some entry of the first `n` positions of `table`.
spec fn in_prefix(table: Seq<FramedClient>, n: int, p: FramedClient) -> bool {
    exists|j: int| 0 <= j < n && p == #[trigger] table[j]
}

/// Filtering one more position of a sequence appends that entry when the
/// predicate accepts it and changes nothing when it does not.
proof fn lemma_filter_take_step(s: Seq<FramedClient>, n: int, pred: spec_fn(FramedClient) -> bool)
    requires
        0 <= n < s.len(),
    ensures
        pred(s[n]) ==> s.take(n + 1).filter(pred) == s.take(n).filter(pred).push(s[n]),
        !pred(s[n]) ==> s.take(n + 1).filter(pred) == s.take(n).filter(pred),
{
    reveal_with_fuel(Seq::<_>::filter, 1);
    assert(s.take(n + 1).drop_last() =~= s.take(n));
    assert(s.take(n + 1).last() == s[n]);
    assert(s.take(n + 1).len() == n + 1);
}

/// No two pairs of the table share a client.
pub open spec fn spec_clients_distinct(table: Seq<FramedClient>) -> bool {
    forall|i: int, j: int|
        0 <= i < j < table.len() ==> #[trigger] table[i].client != #[trigger] table[j].client
}

/// No two pairs of the table share a frame.
pub open spec fn spec_frames_distinct(table: Seq<FramedClient>) -> bool {
    forall|i: int, j: int|
        0 <= i < j < table.len() ==> #[trigger] table[i].frame != #[trigger] table[j].frame
}

/// A request list of at most one element, for handlers that decide one
/// request or none.
fn request_list(request: Option<Request>) -> (r: Vec<Request>)
    ensures
        match request {
            Some(q) => r@ == seq![q],
            None => r@ == Seq::<Request>::empty(),
        },
{
    let mut list: Vec<Request> = Vec::new();
    match request {
        Some(q) => {
            list.push(q);
            proof {
                assert(list@ =~= seq![q]);
            }
        },
        None => {
            proof {
                assert(list@ =~= Seq::<Request>::empty());
            }
        },
    }
    list
}

/// Filtering with a predicate that accepts every entry keeps the
/// sequence as it is.
proof fn lemma_filter_all_kept(table: Seq<FramedClient>, pred: spec_fn(FramedClient) -> bool)
    requires
        forall|i: int| 0 <= i < table.len() ==> pred(#[trigger] table[i]),
    ensures
        table.filter(pred) == table,
    decreases table.len(),
{
    reveal_with_fuel(Seq::<_>::filter, 1);
    if table.len() > 0 {
        lemma_filter_all_kept(table.drop_last(), pred);
        assert(table.drop_last().push(table.last()) =~= table);
    }
}

/// Framing a client and then forgetting it on its destruction leaves the
/// table exactly as it was: for a client not yet in the table, the pair
/// that a map request appends is the one pair that the destroy handler
/// filters out again.
pub proof fn lemma_map_then_destroy_restores_table(
    table: Seq<FramedClient>,
    frame: u32,
    client: u32,
)
    requires
        forall|i: int| 0 <= i < table.len() ==> (#[trigger] table[i]).client != client,
    ensures
        table.push(FramedClient { frame, client }).filter(|p: FramedClient| p.client != client)
            == table,
        table.push(FramedClient { frame, client }).filter(|p: FramedClient| p.client == client)
            =~= seq![(FramedClient { frame, client })],
{
    reveal_with_fuel(Seq::<_>::filter, 1);
    let pushed = table.push(FramedClient { frame, client });
    assert(pushed.drop_last() =~= table);
    assert(pushed.last() == (FramedClient { frame, client }));
    lemma_filter_all_kept(table, |p: FramedClient| p.client != client);
    lemma_filter_none_kept(table, |p: FramedClient| p.client == client);
}

/// Filtering with a predicate that rejects every entry empties the
/// sequence.
proof fn lemma_filter_none_kept(table: Seq<FramedClient>, pred: spec_fn(FramedClient) -> bool)
    requires
        forall|i: int| 0 <= i < table.len() ==> !pred(#[trigger] table[i]),
    ensures
        table.filter(pred) == Seq::<FramedClient>::empty(),
    decreases table.len(),
{
    reveal_with_fuel(Seq::<_>::filter, 1);
    if table.len() > 0 {
        lemma_filter_none_kept(table.drop_last(), pred);
    } else {
        assert(table.filter(pred) =~= Seq::<FramedClient>::empty());
    }
}

/// The window manager's whole state: the table of framed clients and the
/// drag in progress, if any.
pub struct WindowManager {
    windows: Vec<FramedClient>,
    move_start: Option<(i16, i16)>,
    move_window: Option<u32>,
}

impl WindowManager {
    /// The table of framed clients, in the order their map requests were
    /// handled.
    pub closed spec fn table(self) -> Seq<FramedClient> {
        self.windows@
    }

    /// The anchor of the drag in progress: the root-relative pointer
    /// position observed by the last motion event, or `None` when no
    /// motion has arrived since the drag began (or no drag is running).
    pub closed spec fn drag_start(self) -> Option<(i16, i16)> {
        self.move_start
    }

    /// The frame being dragged, set by a left-button press on it and
    /// cleared by the release.
    pub closed spec fn dragged_frame(self) -> Option<u32> {
        self.move_window
    }

    /// Whether some pair of the table has this client.
    pub open spec fn has_client(self, window: u32) -> bool {
        exists|i: int| 0 <= i < self.table().len() && self.table()[i].client == window
    }

    /// Whether some pair of the table has this frame.
    pub open spec fn has_frame(self, window: u32) -> bool {
        exists|i: int| 0 <= i < self.table().len() && self.table()[i].frame == window
    }

    /// The manager's invariant: every frame owns exactly one client and
    /// every client sits in exactly one frame — both columns of the table
    /// are free of duplicates.  The drag state is not constrained here: a
    /// motion event can set an anchor while no frame is recorded, for
    /// instance when the release that ended a drag has already been
    /// handled.
    pub open spec fn wf(self) -> bool {
        &&& spec_clients_distinct(self.table())
        &&& spec_frames_distinct(self.table())
    }

    /// A fresh manager: empty table, no drag.
    pub fn new() -> (r: WindowManager)
        ensures
            r.table() == Seq::<FramedClient>::empty(),
            r.drag_start() is None,
            r.dragged_frame() is None,
            r.wf(),
    {
        let manager = WindowManager { windows: Vec::new(), move_start: None, move_window: None };
        proof {
            assert(manager.table() =~= Seq::<FramedClient>::empty());
        }
        manager
    }

    /// The number of framed clients.
    pub fn window_count(&self) -> (r: usize)
        ensures
            r == self.table().len(),
    {
        self.windows.len()
    }

    /// The pair at one position of the table.
    pub fn framed_client(&self, i: usize) -> (r: FramedClient)
        requires
            i < self.table().len(),
        ensures
            r == self.table()[i as int],
    {
        self.windows[i]
    }

    /// The frame being dragged, if any.
    pub fn drag_target(&self) -> (r: Option<u32>)
        ensures
            r == self.dragged_frame(),
    {
        self.move_window
    }

    /// The drag anchor, if any.
    pub fn drag_anchor(&self) -> (r: Option<(i16, i16)>)
        ensures
            r == self.drag_start(),
    {
        self.move_start
    }

    /// Whether this window is a client of some frame in the table.
    pub fn contains_client(&self, window: u32) -> (r: bool)
        ensures
            r == self.has_client(window),
    {
        let mut i: usize = 0;
        while i < self.windows.len()
            invariant
                i <= self.table().len(),
                forall|j: int| 0 <= j < i ==> self.table()[j].client != window,
            decreases self.table().len() - i,
        {
            if self.windows[i].client == window {
                return true;
            }
            i = i + 1;
        }
        false
    }

    /// Whether this window is a frame in the table.
    pub fn contains_frame(&self, window: u32) -> (r: bool)
        ensures
            r == self.has_frame(window),
    {
        let mut i: usize = 0;
        while i < self.windows.len()
            invariant
                i <= self.table().len(),
                forall|j: int| 0 <= j < i ==> self.table()[j].frame != window,
            decreases self.table().len() - i,
        {
            if self.windows[i].frame == window {
                return true;
            }
            i = i + 1;
        }
        false
    }

    /// The frame wrapping this client, or `None` when the client is not
    /// in the table.
    pub fn frame_of_client(&self, window: u32) -> (r: Option<u32>)
        ensures
            r is Some <==> self.has_client(window),
            r matches Some(frame) ==> exists|i: int|
                0 <= i < self.table().len() && self.table()[i].client == window
                    && self.table()[i].frame == frame,
    {
        let mut i: usize = 0;
        while i < self.windows.len()
            invariant
                i <= self.table().len(),
                forall|j: int| 0 <= j < i ==> self.table()[j].client != window,
            decreases self.table().len() - i,
        {
            if self.windows[i].client == window {
                return Some(self.windows[i].frame);
            }
            i = i + 1;
        }
        None
    }

    /// Honors a configure request verbatim: the client is given exactly
    /// the rectangle it asked for, and the manager's state does not
    /// change.  The frame, if any, is not resized here.
    pub fn handle_configure_request(&self, window: u32, rectangle: Rectangle) -> (r: Request)
        ensures
            r == (Request::ConfigureWindow { window, rectangle }),
    {
        Request::ConfigureWindow { window, rectangle }
    }

    /// Frames a client asking to be mapped.
    ///
    /// `geometry` is the client's current geometry as the server reported
    /// it and `frame` is a fresh identifier for the frame window.  The
    /// requests create the frame over the client's position with the
    /// decoration band added to the height, map it, select substructure
    /// events on it, reparent the client into it at the band's offset and
    /// map the client; the new pair is appended to the table.
    pub fn handle_map_request(&mut self, client: u32, geometry: Geometry, frame: u32) -> (r: Vec<
        Request,
    >)
        requires
            old(self).wf(),
            !old(self).has_client(client),
            !old(self).has_frame(frame),
            geometry.rectangle.height + FRAME_BAND <= u16::MAX,
        ensures
            final(self).wf(),
            final(self).table() == old(self).table().push(FramedClient { frame, client }),
            final(self).drag_start() == old(self).drag_start(),
            final(self).dragged_frame() == old(self).dragged_frame(),
            r@ == seq![
                (Request::CreateWindow {
                    window: frame,
                    rectangle: spec_frame_rectangle(geometry.rectangle),
                }),
                (Request::MapWindow { window: frame }),
                (Request::SetEventMask {
                    window: frame,
                    mask: spec_combine_masks(spec_frame_classes()),
                }),
                (Request::ReparentWindow {
                    window: client,
                    parent: frame,
                    x_offset: 0,
                    y_offset: FRAME_BAND as i16,
                }),
                (Request::MapWindow { window: client }),
            ],
    {
        let rectangle = frame_rectangle(geometry.rectangle);
        let mask = frame_event_mask();
        let mut requests: Vec<Request> = Vec::new();
        requests.push(Request::CreateWindow { window: frame, rectangle });
        requests.push(Request::MapWindow { window: frame });
        requests.push(Request::SetEventMask { window: frame, mask });
        requests.push(
            Request::ReparentWindow {
                window: client,
                parent: frame,
                x_offset: 0,
                y_offset: FRAME_BAND as i16,
            },
        );
        requests.push(Request::MapWindow { window: client });
        self.windows.push(FramedClient { frame, client });
        proof {
            assert(requests@ =~= seq![
                (Request::CreateWindow {
                    window: frame,
                    rectangle: spec_frame_rectangle(geometry.rectangle),
                }),
                (Request::MapWindow { window: frame }),
                (Request::SetEventMask {
                    window: frame,
                    mask: spec_combine_masks(spec_frame_classes()),
                }),
                (Request::ReparentWindow {
                    window: client,
                    parent: frame,
                    x_offset: 0,
                    y_offset: FRAME_BAND as i16,
                }),
                (Request::MapWindow { window: client }),
            ]);
            assert(self.table() =~= old(self).table().push(FramedClient { frame, client }));
            assert forall|i: int, j: int|
                0 <= i < j < self.table().len() implies self.table()[i].client != self.table()[
                j].client by {
                if j == self.table().len() - 1 {
                    assert(self.table()[i] == old(self).table()[i]);
                } else {
                    assert(self.table()[i] == old(self).table()[i]);
                    assert(self.table()[j] == old(self).table()[j]);
                }
            }
            assert forall|i: int, j: int|
                0 <= i < j < self.table().len() implies self.table()[i].frame != self.table()[
                j].frame by {
                if j == self.table().len() - 1 {
                    assert(self.table()[i] == old(self).table()[i]);
                } else {
                    assert(self.table()[i] == old(self).table()[i]);
                    assert(self.table()[j] == old(self).table()[j]);
                }
            }
        }
        requests
    }

    /// Unmaps the frame of a client that was unmapped, and ignores the
    /// event when the window is no client of the table — the frame itself
    /// unmapping, for instance.  The table keeps the pair either way.
    pub fn handle_unmap(&self, window: u32) -> (r: Option<Request>)
        ensures
            r is Some <==> self.has_client(window),
            r matches Some(req) ==> exists|i: int|
                0 <= i < self.table().len() && self.table()[i].client == window && req == (
                Request::UnmapWindow { window: self.table()[i].frame }),
    {
        match self.frame_of_client(window) {
            Some(frame) => Some(Request::UnmapWindow { window: frame }),
            None => None,
        }
    }

    /// Forgets a destroyed client: keeps exactly the pairs whose client
    /// differs, in their order, and issues a destroy for the frame of
    /// every dropped pair, since the manager owns those windows.
    pub fn handle_destroy(&mut self, window: u32) -> (r: Vec<Request>)
        requires
            old(self).wf(),
        ensures
            final(self).wf(),
            final(self).table() == old(self).table().filter(
                |p: FramedClient| p.client != window,
            ),
            final(self).drag_start() == old(self).drag_start(),
            final(self).dragged_frame() == old(self).dragged_frame(),
            r@ == old(self).table().filter(|p: FramedClient| p.client == window).map_values(
                |p: FramedClient| (Request::DestroyWindow { window: p.frame }),
            ),
    {
        let ghost base = self.windows@;
        let mut kept: Vec<FramedClient> = Vec::new();
        let mut requests: Vec<Request> = Vec::new();
        let mut i: usize = 0;
        proof {
            reveal_with_fuel(Seq::<_>::filter, 1);
            assert(base.take(0) =~= Seq::<FramedClient>::empty());
        }
        while i < self.windows.len()
            invariant
                i <= base.len(),
                self.windows@ == base,
                spec_clients_distinct(base),
                spec_frames_distinct(base),
                kept@ == base.take(i as int).filter(|p: FramedClient| p.client != window),
                requests@ == base.take(i as int).filter(|p: FramedClient| p.client == window)
                    .map_values(|p: FramedClient| (Request::DestroyWindow { window: p.frame })),
                forall|k: int| 0 <= k < kept@.len() ==> in_prefix(base, i as int, #[trigger] kept@[k]),
                spec_clients_distinct(kept@),
                spec_frames_distinct(kept@),
            decreases base.len() - i,
        {
            let p = self.windows[i];
            proof {
                lemma_filter_take_step(base, i as int, |p: FramedClient| p.client != window);
                lemma_filter_take_step(base, i as int, |p: FramedClient| p.client == window);
            }
            if p.client != window {
                let ghost prior = kept@;
                kept.push(p);
                proof {
                    assert(kept@ =~= base.take(i + 1).filter(
                        |p: FramedClient| p.client != window,
                    ));
                    assert(base.take(i + 1).filter(|p: FramedClient| p.client == window)
                        .map_values(|p: FramedClient| (Request::DestroyWindow { window: p.frame }))
                        =~= requests@);
                    assert forall|k: int|
                        0 <= k < kept@.len() implies in_prefix(base, i + 1, #[trigger] kept@[k]) by {
                        if k < prior.len() {
                            assert(in_prefix(base, i as int, prior[k]));
                            let j = choose|j: int| 0 <= j < i && prior[k] == #[trigger] base[j];
                            assert(kept@[k] == base[j]);
                        } else {
                            assert(kept@[k] == base[i as int]);
                        }
                    }
                    assert forall|a: int, b: int|
                        0 <= a < b < kept@.len() implies kept@[a].client != kept@[b].client by {
                        if b == kept@.len() - 1 {
                            assert(in_prefix(base, i as int, prior[a]));
                            let j = choose|j: int| 0 <= j < i && prior[a] == #[trigger] base[j];
                            assert(kept@[a] == base[j] && kept@[b] == base[i as int]);
                            assert(base[j].client != base[i as int].client);
                        }
                    }
                    assert forall|a: int, b: int|
                        0 <= a < b < kept@.len() implies kept@[a].frame != kept@[b].frame by {
                        if b == kept@.len() - 1 {
                            assert(in_prefix(base, i as int, prior[a]));
                            let j = choose|j: int| 0 <= j < i && prior[a] == #[trigger] base[j];
                            assert(kept@[a] == base[j] && kept@[b] == base[i as int]);
                            assert(base[j].frame != base[i as int].frame);
                        }
                    }
                }
            } else {
                requests.push(Request::DestroyWindow { window: p.frame });
                proof {
                    assert(base.take(i + 1).filter(|p: FramedClient| p.client != window) =~= kept@);
                    assert(base.take(i + 1).filter(|p: FramedClient| p.client == window)
                        .map_values(|p: FramedClient| (Request::DestroyWindow { window: p.frame }))
                        =~= requests@);
                }
            }
            i = i + 1;
        }
        proof {
            assert(base.take(base.len() as int) =~= base);
        }
        self.windows = kept;
        requests
    }

    /// Starts a drag on a left-button press over a child window: grabs
    /// the pointer and records the child as the dragged frame, leaving
    /// the anchor for the first motion event to set.  Presses of other
    /// buttons are ignored.
    pub fn handle_button_press(&mut self, button: MouseButton, child_window: Option<u32>) -> (r:
        Option<Request>)
        requires
            old(self).wf(),
            button is Left ==> child_window is Some,
        ensures
            final(self).wf(),
            final(self).table() == old(self).table(),
            final(self).drag_start() == old(self).drag_start(),
            button is Left ==> r == Some(Request::GrabPointer) && final(self).dragged_frame()
                == child_window,
            !(button is Left) ==> r is None && final(self).dragged_frame() == old(self).dragged_frame(),
    {
        match button {
            MouseButton::Left => {
                self.move_window = Some(child_window.unwrap());
                Some(Request::GrabPointer)
            },
            _ => None,
        }
    }

    /// Ends a drag on a left-button release: ungrabs the pointer and
    /// clears both halves of the drag state.  Releases of other buttons
    /// are ignored.
    pub fn handle_button_release(&mut self, button: MouseButton) -> (r: Option<Request>)
        requires
            old(self).wf(),
        ensures
            final(self).wf(),
            final(self).table() == old(self).table(),
            button is Left ==> r == Some(Request::UngrabPointer) && final(self).drag_start()
                is None && final(self).dragged_frame() is None,
            !(button is Left) ==> r is None && final(self).drag_start() == old(self).drag_start()
                && final(self).dragged_frame() == old(self).dragged_frame(),
    {
        match button {
            MouseButton::Left => {
                self.move_start = None;
                self.move_window = None;
                Some(Request::UngrabPointer)
            },
            _ => None,
        }
    }

    /// Moves the dragged frame along with the pointer.
    ///
    /// When a drag anchor exists, the frame recorded at button press is
    /// configured to its current geometry shifted by the pointer's delta
    /// against the anchor; the first motion of a drag has no anchor and
    /// moves nothing.  Either way the anchor becomes the observed
    /// position, and the table is untouched.  `frame_geometry` is the
    /// dragged frame's current geometry, which the caller queries exactly
    /// when an anchor exists.
    pub fn handle_motion(&mut self, x: i16, y: i16, frame_geometry: Option<Geometry>) -> (r:
        Option<Request>)
        requires
            old(self).wf(),
            frame_geometry is Some <==> old(self).drag_start() is Some,
            old(self).drag_start() matches Some(start) ==> old(self).dragged_frame() is Some
                && old(self).has_frame(old(self).dragged_frame()->0) && spec_motion_fits(
                start,
                frame_geometry->0.rectangle,
                x,
                y,
            ),
        ensures
            final(self).wf(),
            final(self).table() == old(self).table(),
            final(self).dragged_frame() == old(self).dragged_frame(),
            final(self).drag_start() == Some((x, y)),
            match old(self).drag_start() {
                None => r is None,
                Some(start) => r == Some(
                    (Request::ConfigureWindow {
                        window: old(self).dragged_frame()->0,
                        rectangle: spec_moved_rectangle(frame_geometry->0.rectangle, start, x, y),
                    }),
                ),
            },
    {
        let r = match self.move_start {
            Some((start_x, start_y)) => {
                let geometry = frame_geometry.unwrap();
                let target = self.move_window.unwrap();
                let rectangle = Rectangle {
                    x: geometry.rectangle.x + (x - start_x),
                    y: geometry.rectangle.y + (y - start_y),
                    width: geometry.rectangle.width,
                    height: geometry.rectangle.height,
                };
                Some(Request::ConfigureWindow { window: target, rectangle })
            },
            None => None,
        };
        self.move_start = Some((x, y));
        r
    }

    /// Reacts to one inbound event, as the event loop does, and returns
    /// the requests to perform, in order.
    ///
    /// Two inputs only the server can supply ride along.  For a map
    /// request, `geometry` carries the asking client's geometry and
    /// `new_window` a fresh identifier for its frame.  For a motion
    /// event, `geometry` carries the dragged frame's geometry, queried
    /// exactly when a drag anchor exists (see [`Self::drag_anchor`]).
    /// Both are ignored for every other event.
    pub fn handle_event(
        &mut self,
        event: &Event,
        geometry: Option<Geometry>,
        new_window: Option<u32>,
    ) -> (r: Vec<Request>)
        requires
            old(self).wf(),
            *event matches Event::WindowMappingRequest { window } ==> geometry is Some
                && new_window is Some && !old(self).has_client(window) && !old(self).has_frame(
                new_window->0,
            ) && geometry->0.rectangle.height + FRAME_BAND <= u16::MAX,
            *event matches Event::MotionNotify { x, y, .. } ==> (geometry is Some <==> old(self).drag_start() is Some) && (old(self).drag_start() matches Some(start) ==> old(self).dragged_frame() is Some && old(self).has_frame(old(self).dragged_frame()->0)
                && spec_motion_fits(start, geometry->0.rectangle, x, y)),
            *event matches Event::ButtonPressed { button, child_window, .. } ==> (button is Left
                ==> child_window is Some),
        ensures
            final(self).wf(),
            match *event {
                Event::WindowConfigurationRequest { window, rectangle } => {
                    &&& final(self).table() == old(self).table()
                    &&& final(self).drag_start() == old(self).drag_start()
                    &&& final(self).dragged_frame() == old(self).dragged_frame()
                    &&& r@ == seq![(Request::ConfigureWindow { window, rectangle })]
                },
                Event::WindowMappingRequest { window } => {
                    &&& final(self).table() == old(self).table().push(
                        FramedClient { frame: new_window->0, client: window },
                    )
                    &&& final(self).drag_start() == old(self).drag_start()
                    &&& final(self).dragged_frame() == old(self).dragged_frame()
                    &&& r@ == seq![
                        (Request::CreateWindow {
                            window: new_window->0,
                            rectangle: spec_frame_rectangle(geometry->0.rectangle),
                        }),
                        (Request::MapWindow { window: new_window->0 }),
                        (Request::SetEventMask {
                            window: new_window->0,
                            mask: spec_combine_masks(spec_frame_classes()),
                        }),
                        (Request::ReparentWindow {
                            window,
                            parent: new_window->0,
                            x_offset: 0,
                            y_offset: FRAME_BAND as i16,
                        }),
                        (Request::MapWindow { window }),
                    ]
                },
                Event::WindowUnmapped { window } => {
                    &&& final(self).table() == old(self).table()
                    &&& final(self).drag_start() == old(self).drag_start()
                    &&& final(self).dragged_frame() == old(self).dragged_frame()
                    &&& old(self).has_client(window) ==> r@.len() == 1 && exists|i: int|
                        0 <= i < old(self).table().len() && old(self).table()[i].client == window
                            && r@[0] == (Request::UnmapWindow {
                            window: old(self).table()[i].frame,
                        })
                    &&& !old(self).has_client(window) ==> r@ == Seq::<Request>::empty()
                },
                Event::WindowDestroyed { window } => {
                    &&& final(self).table() == old(self).table().filter(
                        |p: FramedClient| p.client != window,
                    )
                    &&& final(self).drag_start() == old(self).drag_start()
                    &&& final(self).dragged_frame() == old(self).dragged_frame()
                    &&& r@ == old(self).table().filter(|p: FramedClient| p.client == window)
                        .map_values(|p: FramedClient| (Request::DestroyWindow { window: p.frame }))
                },
                Event::ButtonPressed { button, child_window, .. } => {
                    &&& final(self).table() == old(self).table()
                    &&& final(self).drag_start() == old(self).drag_start()
                    &&& button is Left ==> r@ == seq![Request::GrabPointer] && final(self).dragged_frame() == child_window
                    &&& !(button is Left) ==> r@ == Seq::<Request>::empty() && final(self).dragged_frame() == old(self).dragged_frame()
                },
                Event::ButtonReleased { button, .. } => {
                    &&& final(self).table() == old(self).table()
                    &&& button is Left ==> r@ == seq![Request::UngrabPointer] && final(self).drag_start() is None && final(self).dragged_frame() is None
                    &&& !(button is Left) ==> r@ == Seq::<Request>::empty() && final(self).drag_start() == old(self).drag_start() && final(self).dragged_frame() == old(self).dragged_frame()
                },
                Event::MotionNotify { x, y, .. } => {
                    &&& final(self).table() == old(self).table()
                    &&& final(self).dragged_frame() == old(self).dragged_frame()
                    &&& final(self).drag_start() == Some((x, y))
                    &&& match old(self).drag_start() {
                        None => r@ == Seq::<Request>::empty(),
                        Some(start) => r@ == seq![
                            (Request::ConfigureWindow {
                                window: old(self).dragged_frame()->0,
                                rectangle: spec_moved_rectangle(
                                    geometry->0.rectangle,
                                    start,
                                    x,
                                    y,
                                ),
                            }),
                        ],
                    }
                },
                _ => {
                    &&& final(self).table() == old(self).table()
                    &&& final(self).drag_start() == old(self).drag_start()
                    &&& final(self).dragged_frame() == old(self).dragged_frame()
                    &&& r@ == Seq::<Request>::empty()
                },
            },
    {
        match event {
            Event::WindowConfigurationRequest { window, rectangle } => {
                request_list(Some(self.handle_configure_request(*window, *rectangle)))
            },
            Event::WindowMappingRequest { window } => {
                self.handle_map_request(*window, geometry.unwrap(), new_window.unwrap())
            },
            Event::WindowUnmapped { window } => request_list(self.handle_unmap(*window)),
            Event::WindowDestroyed { window } => self.handle_destroy(*window),
            Event::ButtonPressed { button, child_window, .. } => {
                request_list(self.handle_button_press(*button, *child_window))
            },
            Event::ButtonReleased { button, .. } => {
                request_list(self.handle_button_release(*button))
            },
            Event::MotionNotify { x, y, .. } => {
                request_list(self.handle_motion(*x, *y, geometry))
            },
            _ => {
                let requests: Vec<Request> = Vec::new();
                proof {
                    assert(requests@ =~= Seq::<Request>::empty());
                }
                requests
            },
        }
    }
}

} // verus!
