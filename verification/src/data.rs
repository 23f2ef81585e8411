//! Data binding: a cell of application state that widgets stay in step with.

use vstd::prelude::*;
use vstd::cell::invcell::InvCell;
use vstd::predicate::Predicate;
use crate::widget::Widget;

verus! {

/// The predicate that admits every value.
pub struct Anything;

impl<V> Predicate<V> for Anything {
    open spec fn predicate(&self, v: V) -> bool {
        true
    }
}

/// The version that follows `version`, starting over after the last one.
pub open spec fn version_after(version: usize) -> usize {
    if version == usize::MAX {
        0
    } else {
        (version + 1) as usize
    }
}

/// Gives the version that follows `version`. It always differs from
/// `version`, so a reader that remembers the version it saw last notices
/// every single update.
pub fn next_version(version: usize) -> (r: usize)
    ensures
        r == version_after(version),
        r != version,
{
    if version == usize::MAX {
        0
    } else {
        version + 1
    }
}

/// A source of data that widgets can be bound to. Both answers may differ
/// from one call to the next, since the owner of the data may update it in
/// between.
pub trait WidgetData {
    type Data;

    /// A number that changes whenever the data does.
    fn version(&self) -> usize;

    /// The data as it is now.
    fn read(&self) -> Self::Data;
}

/// Binding to nothing: the data never changes.
impl WidgetData for () {
    type Data = ();

    fn version(&self) -> (r: usize)
        ensures
            r == 0,
    {
        0
    }

    fn read(&self) -> Self::Data {
        ()
    }
}

/// A cell that holds a value and a callback. The value can be read and
/// updated through a shared reference, so that the application can change it
/// while widgets are bound to it. Each update invokes the callback, at once
/// and exactly once, with the new value.
///
/// An update must not be made from inside the callback of the same cell, nor
/// from a handler that a widget bound to this cell runs when the data changes.
pub struct BoundData<D, F> {
    value: InvCell<D, Anything>,
    version: InvCell<usize, Anything>,
    on_changed: F,
}

impl<D: Copy, F: Fn(D)> BoundData<D, F> {
    /// The callback registered with the cell.
    pub closed spec fn listener(&self) -> F {
        self.on_changed
    }

    /// Makes a cell that holds `init`. The callback is not invoked.
    pub fn new(init: D, on_changed: F) -> (r: Self)
        ensures
            r.listener() == on_changed,
    {
        BoundData {
            value: InvCell::new(init, Ghost(Anything)),
            version: InvCell::new(0, Ghost(Anything)),
            on_changed,
        }
    }

    /// The value held now.
    pub fn get(&self) -> D {
        self.value.get()
    }

    /// The number of the current version.
    pub fn current_version(&self) -> usize {
        self.version.get()
    }

    /// Replaces the value by what `updater` makes of it, moves on to the next
    /// version and invokes the callback with the new value. Returns the new
    /// value: one that `updater` gives for the value that was held.
    pub fn update<U: FnOnce(D) -> D>(&self, updater: U) -> (r: D)
        requires
            forall|d: D| call_requires(updater, (d,)),
            forall|d: D| call_requires(self.listener(), (d,)),
        ensures
            exists|before: D| call_ensures(updater, (before,), r),
    {
        let before = self.value.get();
        let after = updater(before);
        self.value.set(after);
        self.version.set(next_version(self.version.get()));
        assert(call_requires(self.listener(), (after,)));
        (self.on_changed)(after);
        after
    }
}

impl<'a, D: Copy, F: Fn(D)> WidgetData for &'a BoundData<D, F> {
    type Data = D;

    fn version(&self) -> usize {
        self.current_version()
    }

    fn read(&self) -> D {
        self.get()
    }
}

/// A handler that brings a widget in line with the data it is bound to.
pub trait DataObserver<W: Widget, D> {
    /// What the handler turns `widget` into when shown `data`.
    spec fn applied(&self, widget: W, data: D) -> W;

    /// Shows the handler the data. It may restyle the widget and change what
    /// it displays; it leaves the shape of the tree as it is.
    fn on_data_changed(&self, widget: &mut W, data: &D)
        requires
            old(widget).wf(),
        ensures
            *final(widget) == self.applied(*old(widget), *data),
            final(widget).wf(),
            final(widget).child_count() == old(widget).child_count(),
    ;
}

/// The handler a bound widget has until one is registered: it leaves the
/// widget as it is.
#[derive(Clone, Copy, Debug)]
pub struct KeepWidget;

impl<W: Widget, D> DataObserver<W, D> for KeepWidget {
    open spec fn applied(&self, widget: W, data: D) -> W {
        widget
    }

    fn on_data_changed(&self, widget: &mut W, data: &D) {
    }
}

/// What a widget keeps about the data it is bound to.
pub trait WidgetDataHolderTrait<W: Widget>: Sized {
    /// Whether bringing `widget` up to date can leave the holder as `after`
    /// and the widget as `shown`.
    spec fn synced(&self, widget: W, after: Self, shown: W) -> bool;

    /// Brings `widget` up to date with the data.
    fn update(&mut self, widget: &mut W)
        requires
            old(widget).wf(),
        ensures
            old(self).synced(*old(widget), *final(self), *final(widget)),
            final(widget).wf(),
            final(widget).child_count() == old(widget).child_count(),
    ;
}

/// The holder of a widget that is bound to nothing.
#[derive(Clone, Copy, Debug)]
pub struct NoDataHolder;

impl<W: Widget> WidgetDataHolderTrait<W> for NoDataHolder {
    open spec fn synced(&self, widget: W, after: Self, shown: W) -> bool {
        shown == widget
    }

    fn update(&mut self, widget: &mut W)
        ensures
            *final(widget) == *old(widget),
    {
    }
}

/// The holder of a widget that is bound to `data`: it remembers the version
/// the widget was last shown, and the handler to show the data to.
pub struct WidgetDataHolder<D, H> {
    pub data: D,
    pub last_version: Option<usize>,
    pub on_data_changed: H,
}

impl<D: WidgetData> WidgetDataHolder<D, KeepWidget> {
    /// Binds to `data`. Nothing has been shown to the widget yet, so the next
    /// update shows it the data whatever the version is.
    pub fn new(data: D) -> (r: Self)
        ensures
            r.data == data,
            r.last_version is None,
    {
        WidgetDataHolder { data, last_version: None, on_data_changed: KeepWidget }
    }
}

impl<D: WidgetData, H> WidgetDataHolder<D, H> {
    /// Whether a widget that is shown `version` next has to be told.
    pub open spec fn is_stale(&self, version: usize) -> bool {
        self.last_version != Some(version)
    }

    /// The holder once it has shown its widget version `version`.
    pub open spec fn seen(&self, version: usize) -> Self {
        WidgetDataHolder { last_version: Some(version), ..*self }
    }

    /// What the holder makes of `widget` when the data has the version
    /// `version` and the value `value`: the handler is applied if the
    /// version is not the one the holder saw last.
    pub open spec fn shows<W: Widget>(&self, widget: W, version: usize, value: D::Data) -> W
        where H: DataObserver<W, D::Data> {
        if self.is_stale(version) {
            self.on_data_changed.applied(widget, value)
        } else {
            widget
        }
    }

    /// Registers the handler, replacing the one before, and forgets what the
    /// widget was shown, so that the next update invokes the new handler.
    pub fn on_data_changed<H2>(self, observer: H2) -> (r: WidgetDataHolder<D, H2>)
        ensures
            r.data == self.data,
            r.last_version is None,
            r.on_data_changed == observer,
    {
        WidgetDataHolder { data: self.data, last_version: None, on_data_changed: observer }
    }

    /// Forgets what the widget was shown.
    pub fn reset(&mut self)
        ensures
            final(self).last_version is None,
            final(self).data == old(self).data,
            final(self).on_data_changed == old(self).on_data_changed,
    {
        self.last_version = None;
    }

    /// Shows `value`, which is version `version` of the data, to the widget,
    /// unless that version is the one it was shown last. So the handler runs
    /// once after binding, once after each update of the data, and not in
    /// between.
    pub fn sync<W: Widget>(&mut self, widget: &mut W, version: usize, value: &D::Data)
        where H: DataObserver<W, D::Data>
        requires
            old(widget).wf(),
        ensures
            final(self).data == old(self).data,
            final(self).on_data_changed == old(self).on_data_changed,
            final(self).last_version == Some(version),
            !final(self).is_stale(version),
            *final(self) == old(self).seen(version),
            *final(widget) == old(self).shows(*old(widget), version, *value),
            final(widget).wf(),
            final(widget).child_count() == old(widget).child_count(),
    {
        let fresh = match self.last_version {
            Some(seen) => seen == version,
            None => false,
        };
        if !fresh {
            self.last_version = Some(version);
            self.on_data_changed.on_data_changed(widget, value);
        }
    }
}

impl<W: Widget, D: WidgetData, H: DataObserver<W, D::Data>> WidgetDataHolderTrait<
    W,
> for WidgetDataHolder<D, H> {
    /// For some version and some value of the data, the holder has seen that
    /// version, and the widget was shown that value if the version was not
    /// the one the holder had seen before.
    open spec fn synced(&self, widget: W, after: Self, shown: W) -> bool {
        exists|version: usize, value: D::Data|
            {
                &&& after == self.seen(version)
                &&& shown == #[trigger] self.shows(widget, version, value)
            }
    }

    /// Reads the version and the value of the data and shows them to the
    /// widget as `sync` does.
    fn update(&mut self, widget: &mut W)
        ensures
            final(self).data == old(self).data,
            final(self).on_data_changed == old(self).on_data_changed,
            final(self).last_version is Some,
            old(self).last_version is None ==> exists|value: D::Data|
                *final(widget) == old(self).on_data_changed.applied(*old(widget), value),
    {
        let version = self.data.version();
        let value = self.data.read();
        self.sync(widget, version, &value);
        assert(*self == old(self).seen(version));
        assert(*widget == old(self).shows(*old(widget), version, value));
    }
}

} // verus!
