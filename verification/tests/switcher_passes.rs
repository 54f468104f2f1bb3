use std::cell::{Cell, RefCell};
use std::rc::Rc;

use view_switcher::{
    BoxConstraints, Data, Env, Event, EventCtx, LayoutCtx, LifeCycle, LifeCycleCtx, PaintCtx,
    Point, Request, Size, UpdateCtx, ViewSwitcher, Widget,
};

/// What a probe has seen, in order.
#[derive(Clone, Debug, PartialEq)]
enum Seen {
    Event(Event, u32),
    LifeCycle(LifeCycle, u32),
    Update(u32, u32),
    Layout(BoxConstraints, u32),
    Paint(u32),
}

/// A child that writes down every pass it gets, under its own tag.
struct Probe {
    tag: u32,
    size: Size,
    seen: Rc<RefCell<Vec<(u32, Seen)>>>,
    dropped: Rc<RefCell<Vec<u32>>>,
}

impl Drop for Probe {
    fn drop(&mut self) {
        self.dropped.borrow_mut().push(self.tag);
    }
}

impl Widget<u32> for Probe {
    fn event(&mut self, _ctx: &mut EventCtx, event: &Event, data: &mut u32, _env: &Env) {
        self.seen.borrow_mut().push((self.tag, Seen::Event(*event, *data)));
    }

    fn lifecycle(&mut self, _ctx: &mut LifeCycleCtx, event: &LifeCycle, data: &u32, _env: &Env) {
        self.seen.borrow_mut().push((self.tag, Seen::LifeCycle(*event, *data)));
    }

    fn update(&mut self, _ctx: &mut UpdateCtx, old_data: &u32, data: &u32, _env: &Env) {
        self.seen.borrow_mut().push((self.tag, Seen::Update(*old_data, *data)));
    }

    fn layout(&mut self, _ctx: &mut LayoutCtx, bc: &BoxConstraints, data: &u32, _env: &Env) -> Size {
        self.seen.borrow_mut().push((self.tag, Seen::Layout(*bc, *data)));
        self.size
    }

    fn paint(&mut self, _ctx: &mut PaintCtx, data: &u32, _env: &Env) {
        self.seen.borrow_mut().push((self.tag, Seen::Paint(*data)));
    }
}

/// The counters and logs that a test shares with its switcher.
struct Bench {
    picks: Rc<Cell<u32>>,
    builds: Rc<RefCell<Vec<u32>>>,
    seen: Rc<RefCell<Vec<(u32, Seen)>>>,
    dropped: Rc<RefCell<Vec<u32>>>,
}

impl Bench {
    fn new() -> Bench {
        Bench {
            picks: Rc::new(Cell::new(0)),
            builds: Rc::new(RefCell::new(Vec::new())),
            seen: Rc::new(RefCell::new(Vec::new())),
            dropped: Rc::new(RefCell::new(Vec::new())),
        }
    }

    /// A switcher whose discriminator is the data divided by ten, and whose
    /// children are tagged by the number of the build and sized by the
    /// discriminator.
    fn switcher(
        &self,
    ) -> ViewSwitcher<u32, u32, Probe, impl Fn(&u32, &Env) -> u32, impl Fn(&u32, &u32, &Env) -> Probe>
    {
        let picks = self.picks.clone();
        let builds = self.builds.clone();
        let seen = self.seen.clone();
        let dropped = self.dropped.clone();
        ViewSwitcher::new(
            move |data: &u32, _env: &Env| {
                picks.set(picks.get() + 1);
                *data / 10
            },
            move |id: &u32, _data: &u32, _env: &Env| {
                builds.borrow_mut().push(*id);
                let tag = builds.borrow().len() as u32;
                Probe {
                    tag,
                    size: Size { width: 100 + *id as u64, height: 7 },
                    seen: seen.clone(),
                    dropped: dropped.clone(),
                }
            },
        )
    }
}

fn env() -> Env {
    Env { settings: Vec::new() }
}

fn attach<P, B>(s: &mut ViewSwitcher<u32, u32, Probe, P, B>, data: u32)
where
    P: Fn(&u32, &Env) -> u32,
    B: Fn(&u32, &u32, &Env) -> Probe,
{
    let mut ctx = LifeCycleCtx { requests: Vec::new() };
    s.lifecycle(&mut ctx, &LifeCycle::WidgetAdded, &data, &env());
}

fn update<P, B>(s: &mut ViewSwitcher<u32, u32, Probe, P, B>, old: u32, new: u32) -> Vec<Request>
where
    P: Fn(&u32, &Env) -> u32,
    B: Fn(&u32, &u32, &Env) -> Probe,
{
    let mut ctx = UpdateCtx::new();
    s.update(&mut ctx, &old, &new, &env());
    ctx.requests
}

#[test]
fn new_builds_nothing() {
    let bench = Bench::new();
    let s = bench.switcher();
    assert!(s.active_child().is_none());
    assert!(s.active_child_id().is_none());
    assert_eq!(bench.picks.get(), 0);
    assert!(bench.builds.borrow().is_empty());
}

#[test]
fn attachment_builds_child_and_tells_it() {
    let bench = Bench::new();
    let mut s = bench.switcher();
    attach(&mut s, 23);
    assert_eq!(bench.picks.get(), 1);
    assert_eq!(*bench.builds.borrow(), vec![2]);
    assert_eq!(s.active_child_id(), Some(&2));
    let child = s.active_child().unwrap();
    assert!(child.is_initialized());
    assert_eq!(child.widget().tag, 1);
    assert_eq!(*bench.seen.borrow(), vec![(1, Seen::LifeCycle(LifeCycle::WidgetAdded, 23))]);
}

#[test]
fn other_lifecycle_before_attachment_does_nothing() {
    let bench = Bench::new();
    let mut s = bench.switcher();
    let mut ctx = LifeCycleCtx { requests: Vec::new() };
    s.lifecycle(&mut ctx, &LifeCycle::HotChanged(true), &5, &env());
    assert!(s.active_child().is_none());
    assert!(s.active_child_id().is_none());
    assert_eq!(bench.picks.get(), 0);
    assert!(bench.seen.borrow().is_empty());
    assert!(ctx.requests.is_empty());
}

#[test]
fn other_lifecycle_is_forwarded_without_picking() {
    let bench = Bench::new();
    let mut s = bench.switcher();
    attach(&mut s, 23);
    let mut ctx = LifeCycleCtx { requests: Vec::new() };
    s.lifecycle(&mut ctx, &LifeCycle::FocusChanged(true), &99, &env());
    assert_eq!(bench.picks.get(), 1);
    assert_eq!(*bench.builds.borrow(), vec![2]);
    assert_eq!(s.active_child_id(), Some(&2));
    assert_eq!(
        *bench.seen.borrow(),
        vec![
            (1, Seen::LifeCycle(LifeCycle::WidgetAdded, 23)),
            (1, Seen::LifeCycle(LifeCycle::FocusChanged(true), 99)),
        ]
    );
}

#[test]
fn same_discriminator_keeps_child_and_forwards_once() {
    let bench = Bench::new();
    let mut s = bench.switcher();
    attach(&mut s, 23);
    let requests = update(&mut s, 23, 27);
    assert!(requests.is_empty());
    assert_eq!(*bench.builds.borrow(), vec![2]);
    assert!(bench.dropped.borrow().is_empty());
    assert_eq!(s.active_child().unwrap().widget().tag, 1);
    assert_eq!(s.active_child_id(), Some(&2));
    let updates: Vec<(u32, Seen)> = bench
        .seen
        .borrow()
        .iter()
        .filter(|(_, seen)| matches!(seen, Seen::Update(_, _)))
        .cloned()
        .collect();
    assert_eq!(updates, vec![(1, Seen::Update(23, 27))]);
}

#[test]
fn new_discriminator_rebuilds_once() {
    let bench = Bench::new();
    let mut s = bench.switcher();
    attach(&mut s, 23);
    let requests = update(&mut s, 23, 41);
    assert_eq!(requests, vec![Request::ChildrenChanged]);
    assert_eq!(*bench.builds.borrow(), vec![2, 4]);
    assert_eq!(*bench.dropped.borrow(), vec![1]);
    assert_eq!(bench.picks.get(), 2);
    assert_eq!(s.active_child_id(), Some(&4));
    assert_eq!(s.active_child().unwrap().widget().tag, 2);
}

#[test]
fn switch_does_not_forward_the_update() {
    let bench = Bench::new();
    let mut s = bench.switcher();
    attach(&mut s, 23);
    update(&mut s, 23, 41);
    assert_eq!(*bench.seen.borrow(), vec![(1, Seen::LifeCycle(LifeCycle::WidgetAdded, 23))]);
    let child = s.active_child().unwrap();
    assert!(!child.is_initialized());
    assert_eq!(child.origin(), Point::origin());
    assert_eq!(child.size(), Size::zero());
}

#[test]
fn routing_pass_sets_up_child_after_switch() {
    let bench = Bench::new();
    let mut s = bench.switcher();
    attach(&mut s, 23);
    update(&mut s, 23, 41);
    assert!(!s.active_child().unwrap().is_initialized());

    let mut ctx = LifeCycleCtx { requests: Vec::new() };
    s.lifecycle(&mut ctx, &LifeCycle::RouteWidgetAdded, &41, &env());
    assert!(s.active_child().unwrap().is_initialized());
    assert_eq!(s.active_child().unwrap().widget().tag, 2);
    assert_eq!(*bench.builds.borrow(), vec![2, 4]);
    assert_eq!(bench.picks.get(), 2);
    assert_eq!(
        *bench.seen.borrow(),
        vec![
            (1, Seen::LifeCycle(LifeCycle::WidgetAdded, 23)),
            (2, Seen::LifeCycle(LifeCycle::WidgetAdded, 41)),
        ]
    );

    // a child that is set up sees the host's search as it is
    s.lifecycle(&mut ctx, &LifeCycle::RouteWidgetAdded, &41, &env());
    assert_eq!(
        bench.seen.borrow().last(),
        Some(&(2, Seen::LifeCycle(LifeCycle::RouteWidgetAdded, 41)))
    );
    assert_eq!(*bench.builds.borrow(), vec![2, 4]);
}

#[test]
fn routing_pass_without_child_does_nothing() {
    let bench = Bench::new();
    let mut s = bench.switcher();
    let mut ctx = LifeCycleCtx { requests: Vec::new() };
    s.lifecycle(&mut ctx, &LifeCycle::RouteWidgetAdded, &41, &env());
    assert!(s.active_child().is_none());
    assert_eq!(bench.picks.get(), 0);
    assert!(bench.seen.borrow().is_empty());
}

#[test]
fn update_after_switch_reaches_new_child() {
    let bench = Bench::new();
    let mut s = bench.switcher();
    attach(&mut s, 23);
    update(&mut s, 23, 41);
    let requests = update(&mut s, 41, 42);
    assert!(requests.is_empty());
    assert_eq!(
        *bench.seen.borrow(),
        vec![(1, Seen::LifeCycle(LifeCycle::WidgetAdded, 23)), (2, Seen::Update(41, 42))]
    );
}

#[test]
fn five_updates_build_three_children() {
    let bench = Bench::new();
    let mut s = bench.switcher();
    // X = 1, Y = 2, Z = 3
    attach(&mut s, 10);
    let mut notices = 0;
    let mut old = 10;
    for new in [11, 12, 20, 21, 30] {
        let requests = update(&mut s, old, new);
        notices += requests.iter().filter(|r| **r == Request::ChildrenChanged).count();
        old = new;
    }
    assert_eq!(*bench.builds.borrow(), vec![1, 2, 3]);
    assert_eq!(notices, 2);
    assert_eq!(*bench.dropped.borrow(), vec![1, 2]);
    assert_eq!(s.active_child_id(), Some(&3));
    assert_eq!(bench.picks.get(), 6);
}

#[test]
fn event_before_any_update_reaches_first_child() {
    let bench = Bench::new();
    let mut s = bench.switcher();
    attach(&mut s, 10);
    let picks_before = bench.picks.get();
    let mut ctx = EventCtx { requests: Vec::new() };
    let mut data = 55;
    s.event(&mut ctx, &Event::KeyDown(13), &mut data, &env());
    assert_eq!(bench.picks.get(), picks_before);
    assert_eq!(*bench.builds.borrow(), vec![1]);
    assert_eq!(s.active_child().unwrap().widget().tag, 1);
    assert_eq!(
        *bench.seen.borrow(),
        vec![
            (1, Seen::LifeCycle(LifeCycle::WidgetAdded, 10)),
            (1, Seen::Event(Event::KeyDown(13), 55)),
        ]
    );
}

#[test]
fn event_without_child_does_nothing() {
    let bench = Bench::new();
    let mut s = bench.switcher();
    let mut ctx = EventCtx { requests: Vec::new() };
    let mut data = 55;
    s.event(&mut ctx, &Event::Timer(1), &mut data, &env());
    assert_eq!(data, 55);
    assert!(ctx.requests.is_empty());
    assert!(bench.seen.borrow().is_empty());
    assert_eq!(bench.picks.get(), 0);
}

#[test]
fn layout_answers_child_size_and_places_child() {
    let bench = Bench::new();
    let mut s = bench.switcher();
    attach(&mut s, 23);
    let bc = BoxConstraints::new(Size { width: 1, height: 2 }, Size { width: 300, height: 400 });
    let mut ctx = LayoutCtx { requests: Vec::new() };
    let size = s.layout(&mut ctx, &bc, &23, &env());
    assert_eq!(size, Size { width: 102, height: 7 });
    let child = s.active_child().unwrap();
    assert_eq!(child.origin(), Point { x: 0, y: 0 });
    assert_eq!(child.size(), Size { width: 102, height: 7 });
    assert_eq!(bench.picks.get(), 1);
    assert_eq!(bench.seen.borrow().last(), Some(&(1, Seen::Layout(bc, 23))));
}

#[test]
fn layout_passes_any_constraints_through() {
    let bench = Bench::new();
    let mut s = bench.switcher();
    attach(&mut s, 90);
    // the child's answer is its own even where it lies outside the constraints
    let bc = BoxConstraints::new(Size { width: 0, height: 0 }, Size { width: 5, height: 5 });
    let mut ctx = LayoutCtx { requests: Vec::new() };
    let size = s.layout(&mut ctx, &bc, &90, &env());
    assert_eq!(size, Size { width: 109, height: 7 });
}

#[test]
fn layout_without_child_answers_max() {
    let bench = Bench::new();
    let mut s = bench.switcher();
    let bc = BoxConstraints::new(Size { width: 1, height: 2 }, Size { width: 300, height: 400 });
    let mut ctx = LayoutCtx { requests: Vec::new() };
    let size = s.layout(&mut ctx, &bc, &23, &env());
    assert_eq!(size, Size { width: 300, height: 400 });
    assert!(s.active_child().is_none());
    assert_eq!(bench.picks.get(), 0);
    assert!(bench.seen.borrow().is_empty());
}

#[test]
fn paint_reaches_child_without_picking() {
    let bench = Bench::new();
    let mut s = bench.switcher();
    attach(&mut s, 23);
    let mut ctx = PaintCtx { requests: Vec::new() };
    s.paint(&mut ctx, &24, &env());
    assert_eq!(bench.picks.get(), 1);
    assert_eq!(bench.seen.borrow().last(), Some(&(1, Seen::Paint(24))));
}

#[test]
fn paint_without_child_does_nothing() {
    let bench = Bench::new();
    let mut s = bench.switcher();
    let mut ctx = PaintCtx { requests: Vec::new() };
    s.paint(&mut ctx, &24, &env());
    assert!(bench.seen.borrow().is_empty());
    assert!(ctx.requests.is_empty());
}

#[test]
fn second_attachment_replaces_child() {
    let bench = Bench::new();
    let mut s = bench.switcher();
    attach(&mut s, 23);
    attach(&mut s, 23);
    assert_eq!(*bench.builds.borrow(), vec![2, 2]);
    assert_eq!(*bench.dropped.borrow(), vec![1]);
    assert_eq!(s.active_child().unwrap().widget().tag, 2);
}

#[test]
fn dropping_switcher_drops_child() {
    let bench = Bench::new();
    {
        let mut s = bench.switcher();
        attach(&mut s, 23);
        assert!(bench.dropped.borrow().is_empty());
    }
    assert_eq!(*bench.dropped.borrow(), vec![1]);
}

/// A discriminator of which only `kind` matters.
#[derive(Clone, Debug, PartialEq)]
struct Mode {
    kind: u8,
    revision: u32,
}

impl Data for Mode {
    fn same_spec(&self, other: &Self) -> bool {
        self.kind == other.kind
    }

    fn same(&self, other: &Self) -> bool {
        self.kind == other.kind
    }
}

#[test]
fn sameness_decides_not_equality() {
    let seen = Rc::new(RefCell::new(Vec::new()));
    let dropped = Rc::new(RefCell::new(Vec::new()));
    let builds = Rc::new(Cell::new(0u32));
    let (seen_in, dropped_in, builds_in) = (seen.clone(), dropped.clone(), builds.clone());
    let mut s = ViewSwitcher::new(
        |data: &u32, _env: &Env| Mode { kind: (*data % 2) as u8, revision: *data },
        move |id: &Mode, _data: &u32, _env: &Env| {
            builds_in.set(builds_in.get() + 1);
            Probe {
                tag: id.revision,
                size: Size::zero(),
                seen: seen_in.clone(),
                dropped: dropped_in.clone(),
            }
        },
    );
    let mut lc = LifeCycleCtx { requests: Vec::new() };
    s.lifecycle(&mut lc, &LifeCycle::WidgetAdded, &3, &env());
    assert_eq!(s.active_child_id(), Some(&Mode { kind: 1, revision: 3 }));

    // 5 is odd as 3 is: the same kind, another revision
    let mut ctx = UpdateCtx::new();
    s.update(&mut ctx, &3, &5, &env());
    assert!(ctx.requests.is_empty());
    assert_eq!(builds.get(), 1);
    // the stored discriminator is still the one the child was built for
    assert_eq!(s.active_child_id(), Some(&Mode { kind: 1, revision: 3 }));
    assert_eq!(s.active_child().unwrap().widget().tag, 3);

    let mut ctx = UpdateCtx::new();
    s.update(&mut ctx, &5, &8, &env());
    assert_eq!(ctx.requests, vec![Request::ChildrenChanged]);
    assert_eq!(builds.get(), 2);
    assert_eq!(s.active_child_id(), Some(&Mode { kind: 0, revision: 8 }));
    assert_eq!(*dropped.borrow(), vec![3]);
}

#[test]
fn picker_and_builder_see_the_environment() {
    let seen = Rc::new(RefCell::new(Vec::new()));
    let dropped = Rc::new(RefCell::new(Vec::new()));
    let mut s = ViewSwitcher::new(
        |data: &u32, env: &Env| *data + env.settings.len() as u32,
        move |id: &u32, _data: &u32, env: &Env| Probe {
            tag: *id,
            size: Size { width: env.settings[0].0, height: 0 },
            seen: seen.clone(),
            dropped: dropped.clone(),
        },
    );
    let env = Env { settings: vec![(40, -1), (41, 2)] };
    let mut lc = LifeCycleCtx { requests: Vec::new() };
    s.lifecycle(&mut lc, &LifeCycle::WidgetAdded, &3, &env);
    assert_eq!(s.active_child_id(), Some(&5));
    let mut ctx = LayoutCtx { requests: Vec::new() };
    let bc = BoxConstraints::new(Size::zero(), Size { width: 9, height: 9 });
    assert_eq!(s.layout(&mut ctx, &bc, &3, &env), Size { width: 40, height: 0 });
}

#[test]
fn update_keeps_earlier_requests() {
    let bench = Bench::new();
    let mut s = bench.switcher();
    attach(&mut s, 23);
    let mut ctx = UpdateCtx { requests: vec![Request::Paint] };
    s.update(&mut ctx, &23, &51, &env());
    assert_eq!(ctx.requests, vec![Request::Paint, Request::ChildrenChanged]);
}

#[test]
fn switcher_can_be_a_child() {
    let bench = Bench::new();
    let inner_builds = bench.builds.clone();
    let seen = bench.seen.clone();
    let dropped = bench.dropped.clone();
    let outer_builds = Rc::new(Cell::new(0u32));
    let outer_builds_in = outer_builds.clone();
    let mut outer = ViewSwitcher::new(
        |data: &u32, _env: &Env| *data >= 100,
        move |_big: &bool, _data: &u32, _env: &Env| {
            outer_builds_in.set(outer_builds_in.get() + 1);
            let (inner_builds, seen, dropped) = (inner_builds.clone(), seen.clone(), dropped.clone());
            ViewSwitcher::new(
                |data: &u32, _env: &Env| *data / 10,
                move |id: &u32, _data: &u32, _env: &Env| {
                    inner_builds.borrow_mut().push(*id);
                    Probe { tag: *id, size: Size::zero(), seen: seen.clone(), dropped: dropped.clone() }
                },
            )
        },
    );
    let mut lc = LifeCycleCtx { requests: Vec::new() };
    outer.lifecycle(&mut lc, &LifeCycle::WidgetAdded, &23, &env());
    assert_eq!(outer_builds.get(), 1);
    assert_eq!(*bench.builds.borrow(), vec![2]);

    // the outer discriminator stays, the inner one changes
    let mut ctx = UpdateCtx::new();
    outer.update(&mut ctx, &23, &35, &env());
    assert_eq!(outer_builds.get(), 1);
    assert_eq!(*bench.builds.borrow(), vec![2, 3]);
    assert_eq!(ctx.requests, vec![Request::ChildrenChanged]);
    assert_eq!(outer.active_child().unwrap().widget().active_child_id(), Some(&3));

    // the outer discriminator changes: the new inner switcher has no child yet
    let mut ctx = UpdateCtx::new();
    outer.update(&mut ctx, &35, &135, &env());
    assert_eq!(outer_builds.get(), 2);
    assert_eq!(ctx.requests, vec![Request::ChildrenChanged]);
    assert!(outer.active_child().unwrap().widget().active_child().is_none());
    assert_eq!(*bench.dropped.borrow(), vec![2, 3]);
}

/// Drives a widget through the trait alone.
fn drive<W: Widget<u32>>(w: &mut W, old: u32, new: u32) -> (Vec<Request>, Size) {
    let mut lc = LifeCycleCtx { requests: Vec::new() };
    w.lifecycle(&mut lc, &LifeCycle::WidgetAdded, &old, &env());
    let mut ev = EventCtx { requests: Vec::new() };
    let mut data = old;
    w.event(&mut ev, &Event::MouseDown(Point { x: 1, y: 2 }), &mut data, &env());
    let mut ctx = UpdateCtx::new();
    w.update(&mut ctx, &old, &new, &env());
    let mut lay = LayoutCtx { requests: Vec::new() };
    let bc = BoxConstraints::new(Size::zero(), Size { width: 500, height: 500 });
    let size = w.layout(&mut lay, &bc, &new, &env());
    let mut paint = PaintCtx { requests: Vec::new() };
    w.paint(&mut paint, &new, &env());
    (ctx.requests, size)
}

#[test]
fn passes_through_the_trait_are_the_switchers_own() {
    let bench = Bench::new();
    let mut s = bench.switcher();
    let (requests, size) = drive(&mut s, 23, 45);
    assert_eq!(requests, vec![Request::ChildrenChanged]);
    assert_eq!(size, Size { width: 104, height: 7 });
    assert_eq!(*bench.builds.borrow(), vec![2, 4]);
    assert_eq!(bench.picks.get(), 2);
    assert_eq!(
        *bench.seen.borrow(),
        vec![
            (1, Seen::LifeCycle(LifeCycle::WidgetAdded, 23)),
            (1, Seen::Event(Event::MouseDown(Point { x: 1, y: 2 }), 23)),
            (
                2,
                Seen::Layout(
                    BoxConstraints::new(Size::zero(), Size { width: 500, height: 500 }),
                    45
                )
            ),
            (2, Seen::Paint(45)),
        ]
    );
    assert_eq!(s.active_child().unwrap().origin(), Point::origin());
}
