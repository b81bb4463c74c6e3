//! The widget tree as far as tooltips need it: which widget stands below
//! which, and the tooltip state that a provider has published for the
//! widgets below it.

use crate::data::{optional_state, TooltipData, TooltipState};
use crate::error::TooltipError;
use vstd::prelude::*;

verus! {

/// One widget of the tree, as a mathematical value.
pub struct Node {
    /// The widget directly above, if any.
    pub parent: Option<int>,
    /// The tooltip state that this widget has published; `Some` exactly for
    /// a provider.
    pub state: Option<TooltipState>,
}

/// What a `TooltipContext` stands for: the widgets in the order in which
/// they were added, each known by its position.
pub struct Tree {
    pub nodes: Seq<Node>,
}

/// The position behind an optional widget index.
pub open spec fn optional_index(widget: Option<usize>) -> Option<int> {
    match widget {
        Some(w) => Some(w as int),
        None => None,
    }
}

impl Tree {
    /// The tree without widgets.
    pub open spec fn empty() -> Tree {
        Tree { nodes: Seq::empty() }
    }

    /// Whether `widget` is part of the tree.
    pub open spec fn has(self, widget: int) -> bool {
        0 <= widget < self.nodes.len()
    }

    /// Whether `parent` can be named as the place of a new widget: at the
    /// top, or below a widget of the tree.
    pub open spec fn admits(self, parent: Option<int>) -> bool {
        match parent {
            Some(p) => self.has(p),
            None => true,
        }
    }

    /// Whether `widget` is a provider, that is, has published a state.
    pub open spec fn is_provider(self, widget: int) -> bool {
        self.has(widget) && self.nodes[widget].state is Some
    }

    /// The state that `widget` has published, if it is a provider.
    pub open spec fn state_of(self, widget: int) -> Option<TooltipState> {
        if self.has(widget) {
            self.nodes[widget].state
        } else {
            None
        }
    }

    /// The widget directly above `widget`, if there is one.
    pub open spec fn parent_of(self, widget: int) -> Option<int> {
        if self.has(widget) {
            self.nodes[widget].parent
        } else {
            None
        }
    }

    /// Every widget was added after the widget above it.
    pub open spec fn well_formed(self) -> bool {
        forall|w: int|
            self.has(w) ==> match (#[trigger] self.nodes[w]).parent {
                Some(p) => 0 <= p < w,
                None => true,
            }
    }

    /// Whether `above` stands somewhere above `widget`.
    pub open spec fn is_ancestor(self, above: int, widget: int) -> bool
        decreases widget,
    {
        if self.has(widget) {
            match self.nodes[widget].parent {
                Some(p) => 0 <= p < widget && (p == above || self.is_ancestor(above, p)),
                None => false,
            }
        } else {
            false
        }
    }

    /// The provider that `widget` writes to: the nearest provider above it,
    /// if there is one.
    pub open spec fn scope(self, widget: int) -> Option<int>
        decreases widget,
    {
        if self.has(widget) {
            match self.nodes[widget].parent {
                Some(p) => if 0 <= p < widget {
                    if self.nodes[p].state is Some {
                        Some(p)
                    } else {
                        self.scope(p)
                    }
                } else {
                    None
                },
                None => None,
            }
        } else {
            None
        }
    }

    /// The tree with one more widget, which is no provider, added at
    /// `parent`.
    pub open spec fn with_widget(self, parent: Option<int>) -> Tree {
        Tree { nodes: self.nodes.push(Node { parent, state: None }) }
    }

    /// The tree in which `widget` holds `state`.
    pub open spec fn with_state(self, widget: int, state: TooltipState) -> Tree {
        Tree {
            nodes: self.nodes.update(
                widget,
                Node { parent: self.nodes[widget].parent, state: Some(state) },
            ),
        }
    }

    /// The tree after `widget` has published `initial`: a widget that is a
    /// provider already keeps the state it has.
    pub open spec fn published(self, widget: int, initial: TooltipState) -> Tree {
        if self.has(widget) && !self.is_provider(widget) {
            self.with_state(widget, initial)
        } else {
            self
        }
    }

    /// The tree after `state` was written to the provider `scope`: writing
    /// to anything but a provider changes nothing.
    pub open spec fn written(self, scope: int, state: TooltipState) -> Tree {
        if self.is_provider(scope) {
            self.with_state(scope, state)
        } else {
            self
        }
    }

    /// A widget's scope, where it has one, is a provider that stands above
    /// it.
    pub proof fn scope_is_provider_above(self, widget: int)
        ensures
            self.scope(widget) matches Some(p) ==> self.is_provider(p) && self.is_ancestor(
                p,
                widget,
            ),
        decreases widget,
    {
        if self.has(widget) {
            match self.nodes[widget].parent {
                Some(p) => {
                    if 0 <= p < widget && !(self.nodes[p].state is Some) {
                        self.scope_is_provider_above(p);
                    }
                },
                None => {},
            }
        }
    }

    /// A widget's scope is the nearest provider above it: every provider
    /// above the widget is the scope itself or stands above the scope. So a
    /// widget has a scope exactly if some provider stands above it.
    pub proof fn scope_is_nearest(self, widget: int, provider: int)
        requires
            self.is_ancestor(provider, widget),
            self.is_provider(provider),
        ensures
            self.scope(widget) matches Some(p) && (provider == p || self.is_ancestor(provider, p)),
        decreases widget,
    {
        let above = self.nodes[widget].parent->0;
        if above != provider && !(self.nodes[above].state is Some) {
            self.scope_is_nearest(above, provider);
        }
    }

    /// Where the tree has no provider at all, no widget has a scope.
    pub proof fn no_provider_no_scope(self, widget: int)
        requires
            forall|w: int| !self.is_provider(w),
        ensures
            self.scope(widget) is None,
    {
        self.scope_is_provider_above(widget);
    }

    /// A widget with nothing above it has no scope, whatever else the tree
    /// holds.
    pub proof fn top_widget_has_no_scope(self, widget: int)
        requires
            self.parent_of(widget) is None,
        ensures
            self.scope(widget) is None,
    {
    }

    /// Publishing a state for a widget a second time changes nothing, and
    /// what was written to a provider outlasts a later publishing: the state
    /// is made once.
    pub proof fn published_once(
        self,
        widget: int,
        first: TooltipState,
        written: TooltipState,
        second: TooltipState,
    )
        requires
            self.has(widget),
        ensures
            self.published(widget, first).is_provider(widget),
            self.published(widget, first).published(widget, second) == self.published(
                widget,
                first,
            ),
            self.published(widget, first).written(widget, written).published(widget, second)
                == self.published(widget, first).written(widget, written),
            self.published(widget, first).written(widget, written).state_of(widget) == Some(
                written,
            ),
    {
    }

    /// Writing to a provider changes the state of that provider only: every
    /// widget keeps its place, every other provider its state, and every
    /// widget its scope.
    pub proof fn written_touches_one_state(self, scope: int, state: TooltipState, widget: int)
        ensures
            self.written(scope, state).nodes.len() == self.nodes.len(),
            self.written(scope, state).parent_of(widget) == self.parent_of(widget),
            self.written(scope, state).is_provider(widget) == self.is_provider(widget),
            widget != scope ==> self.written(scope, state).state_of(widget) == self.state_of(
                widget,
            ),
            self.written(scope, state).scope(widget) == self.scope(widget),
        decreases widget,
    {
        if self.has(widget) {
            match self.nodes[widget].parent {
                Some(p) => {
                    if 0 <= p < widget {
                        self.written_touches_one_state(scope, state, p);
                    }
                },
                None => {},
            }
        }
    }

    /// Adding a widget keeps the tree well-formed and leaves every widget
    /// that was there its place, its state and its scope.
    pub proof fn with_widget_extends(self, parent: Option<int>, widget: int)
        requires
            self.well_formed(),
            self.admits(parent),
            self.has(widget),
        ensures
            self.with_widget(parent).well_formed(),
            self.with_widget(parent).parent_of(widget) == self.parent_of(widget),
            self.with_widget(parent).state_of(widget) == self.state_of(widget),
            self.with_widget(parent).scope(widget) == self.scope(widget),
        decreases widget,
    {
        let grown = self.with_widget(parent);
        assert forall|w: int| grown.has(w) implies match (#[trigger] grown.nodes[w]).parent {
            Some(p) => 0 <= p < w,
            None => true,
        } by {
            if w < self.nodes.len() {
                assert(grown.nodes[w] == self.nodes[w]);
            }
        }
        match self.nodes[widget].parent {
            Some(p) => {
                self.with_widget_extends(parent, p);
            },
            None => {},
        }
    }

    /// A widget added at the top has no scope. One added below a provider
    /// has that provider as its scope, and one added below any other widget
    /// shares that widget's scope.
    pub proof fn new_widget_scope(self, parent: Option<int>)
        requires
            self.well_formed(),
            self.admits(parent),
        ensures
            self.with_widget(parent).scope(self.nodes.len() as int) == (match parent {
                Some(p) => if self.is_provider(p) {
                    Some(p)
                } else {
                    self.scope(p)
                },
                None => None,
            }),
    {
        match parent {
            Some(p) => {
                self.with_widget_extends(parent, p);
            },
            None => {},
        }
    }
}

struct Widget {
    parent: Option<usize>,
    state: Option<TooltipData>,
}

impl View for Widget {
    type V = Node;

    closed spec fn view(&self) -> Node {
        Node { parent: optional_index(self.parent), state: optional_state(self.state) }
    }
}

/// The widget tree with the tooltip states that its providers share.
pub struct TooltipContext {
    widgets: Vec<Widget>,
}

impl View for TooltipContext {
    type V = Tree;

    closed spec fn view(&self) -> Tree {
        tree_of(self.widgets@)
    }
}

/// The tree that a list of widgets stands for.
spec fn tree_of(widgets: Seq<Widget>) -> Tree {
    Tree { nodes: widgets.map_values(|w: Widget| w@) }
}

impl Default for TooltipContext {
    fn default() -> (r: TooltipContext)
        ensures
            r@ == Tree::empty(),
    {
        TooltipContext::new()
    }
}

impl TooltipContext {
    /// Every context stands for a well-formed tree.
    #[verifier::type_invariant]
    pub open spec fn ordered(&self) -> bool {
        self@.well_formed()
    }

    /// A context without widgets.
    pub fn new() -> (r: TooltipContext)
        ensures
            r@ == Tree::empty(),
    {
        let r = TooltipContext { widgets: Vec::new() };
        assert(r@.nodes =~= Seq::empty());
        r
    }

    /// The number of widgets.
    pub fn len(&self) -> (r: usize)
        ensures
            r == self@.nodes.len(),
    {
        self.widgets.len()
    }

    /// Adds a widget below `parent`, or at the top for `None`, and returns
    /// its index. A parent that is not part of the tree is refused.
    pub fn add_widget(&mut self, parent: Option<usize>) -> (r: Result<usize, TooltipError>)
        ensures
            match r {
                Ok(widget) => old(self)@.admits(optional_index(parent)) && widget == old(
                    self,
                )@.nodes.len() && final(self)@ == old(self)@.with_widget(optional_index(parent)),
                Err(error) => !old(self)@.admits(optional_index(parent)) && error
                    == TooltipError::UnknownWidget && final(self)@ == old(self)@,
            },
    {
        proof {
            use_type_invariant(&*self);
        }
        let id = self.widgets.len();
        match parent {
            Some(p) => {
                if p >= id {
                    return Err(TooltipError::UnknownWidget);
                }
            },
            None => {},
        }
        let mut widgets = Vec::new();
        std::mem::swap(&mut widgets, &mut self.widgets);
        widgets.push(Widget { parent, state: None });
        proof {
            assert(tree_of(widgets@).nodes =~= old(self)@.with_widget(
                optional_index(parent),
            ).nodes);
        }
        self.widgets = widgets;
        Ok(id)
    }

    /// The widget directly above `widget`; `None` for a widget at the top
    /// and for one that is not part of the tree.
    pub fn parent(&self, widget: usize) -> (r: Option<usize>)
        ensures
            optional_index(r) == self@.parent_of(widget as int),
    {
        if widget < self.widgets.len() {
            self.widgets[widget].parent
        } else {
            None
        }
    }

    /// Whether `widget` is a provider.
    pub fn is_provider(&self, widget: usize) -> (r: bool)
        ensures
            r == self@.is_provider(widget as int),
    {
        widget < self.widgets.len() && self.widgets[widget].state.is_some()
    }

    /// Makes `widget` a provider with the state `initial`. A widget that is
    /// a provider already keeps its state, so that what consumers wrote
    /// outlasts a second call. A widget that is not part of the tree is
    /// refused.
    pub fn create_provider(&mut self, widget: usize, initial: TooltipData) -> (r: Result<
        (),
        TooltipError,
    >)
        ensures
            final(self)@ == old(self)@.published(widget as int, initial@),
            old(self)@.has(widget as int) ==> r == Ok::<(), TooltipError>(()),
            !old(self)@.has(widget as int) ==> r == Err::<(), TooltipError>(
                TooltipError::UnknownWidget,
            ),
    {
        proof {
            use_type_invariant(&*self);
        }
        if widget >= self.widgets.len() {
            return Err(TooltipError::UnknownWidget);
        }
        if self.widgets[widget].state.is_none() {
            let parent = self.widgets[widget].parent;
            let mut widgets = Vec::new();
            std::mem::swap(&mut widgets, &mut self.widgets);
            widgets.set(widget, Widget { parent, state: Some(initial) });
            proof {
                assert(tree_of(widgets@).nodes =~= old(self)@.with_state(
                    widget as int,
                    initial@,
                ).nodes);
            }
            self.widgets = widgets;
        }
        Ok(())
    }

    /// The provider to which a consumer at `widget` writes: the nearest
    /// provider above it. `None` where no provider stands above `widget`,
    /// and for a widget that is not part of the tree.
    pub fn create_consumer(&self, widget: usize) -> (r: Option<usize>)
        ensures
            optional_index(r) == self@.scope(widget as int),
    {
        proof {
            use_type_invariant(self);
        }
        if widget >= self.widgets.len() {
            return None;
        }
        let mut current = widget;
        loop
            invariant
                current < self.widgets.len(),
                self@.well_formed(),
                self@.scope(current as int) == self@.scope(widget as int),
            decreases current,
        {
            match self.widgets[current].parent {
                None => {
                    return None;
                },
                Some(above) => {
                    if self.widgets[above].state.is_some() {
                        return Some(above);
                    }
                    current = above;
                },
            }
        }
    }

    /// A copy of the state that the provider `scope` shares; `None` where
    /// `scope` is no provider.
    pub fn get(&self, scope: usize) -> (r: Option<TooltipData>)
        ensures
            optional_state(r) == self@.state_of(scope as int),
    {
        if scope >= self.widgets.len() {
            return None;
        }
        match &self.widgets[scope].state {
            Some(data) => Some(data.clone()),
            None => None,
        }
    }

    /// Replaces the state that the provider `scope` shares and returns
    /// `true`; where `scope` is no provider nothing changes and the result
    /// is `false`.
    pub fn set(&mut self, scope: usize, data: TooltipData) -> (r: bool)
        ensures
            r == old(self)@.is_provider(scope as int),
            final(self)@ == old(self)@.written(scope as int, data@),
    {
        proof {
            use_type_invariant(&*self);
        }
        if scope >= self.widgets.len() || self.widgets[scope].state.is_none() {
            return false;
        }
        let parent = self.widgets[scope].parent;
        let mut widgets = Vec::new();
        std::mem::swap(&mut widgets, &mut self.widgets);
        widgets.set(scope, Widget { parent, state: Some(data) });
        proof {
            assert(tree_of(widgets@).nodes =~= old(self)@.with_state(scope as int, data@).nodes);
        }
        self.widgets = widgets;
        true
    }
}

} // verus!
