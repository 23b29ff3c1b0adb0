use vstd::prelude::*;

verus! {

/// Props of a widget that renders one child widget per item of `data`.
/// `S`, `C` and `F` are the widget framework's style, children and event
/// handler types.
pub struct VecTrackerProps<T, S, C, F> {
    pub data: Vec<T>,
    pub styles: Option<S>,
    pub children: Option<C>,
    pub on_event: Option<F>,
}

impl<T, S, C, F> VecTrackerProps<T, S, C, F> {
    /// The widget never takes focus.
    pub fn get_focusable(&self) -> (focusable: Option<bool>)
        ensures
            focusable == Some(false),
    {
        Some(false)
    }
}

/// A widget that renders one child per item of its props' `data`; `I` is
/// the widget id type.
pub struct VecTracker<T, I, S, C, F> {
    pub id: I,
    pub props: VecTrackerProps<T, S, C, F>,
}

impl<T, I: Default, S, C, F> VecTracker<T, I, S, C, F> {
    /// A tracker over `data`, with a default id and no styles, children or
    /// event handler.
    pub fn new(data: Vec<T>) -> (tracker: Self)
        ensures
            call_ensures(I::default, (), tracker.id),
            tracker.props.data@ == data@,
            tracker.props.styles is None,
            tracker.props.children is None,
            tracker.props.on_event is None,
    {
        let props = VecTrackerProps { data, styles: None, children: None, on_event: None };
        VecTracker { id: I::default(), props }
    }

    /// A tracker with the given props and a default id.
    pub fn constructor(props: VecTrackerProps<T, S, C, F>) -> (tracker: Self)
        ensures
            call_ensures(I::default, (), tracker.id),
            tracker.props == props,
    {
        VecTracker { id: I::default(), props }
    }
}

impl<T, I: Copy, S, C, F> VecTracker<T, I, S, C, F> {
    pub fn get_id(&self) -> (id: I)
        ensures
            id == self.id,
    {
        self.id
    }

    pub fn set_id(&mut self, id: I)
        ensures
            final(self).id == id,
            final(self).props == old(self).props,
    {
        self.id = id;
    }
}

} // verus!
