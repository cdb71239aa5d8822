//! The arrangement of panes in a tab, as a layout description gives it.
//!
//! A resolver carries these values from the description to the action that
//! opens the tab and reads nothing in them but the list of tabs.

use crate::command::{RunCommandAction, RunCommandActionView};
use crate::plugin::{RunPlugin, RunPluginView};
use crate::text::opt_text_eq;
use vstd::prelude::*;
use vstd::std_specs::cmp::PartialEqSpecImpl;

verus! {

/// The axis along which a pane lays out its children.
#[derive(Clone, Copy, Debug, PartialEq, Eq, Structural)]
pub enum SplitDirection {
    Horizontal,
    Vertical,
}

/// A size, as a share of the parent or as a count of cells.
#[derive(Clone, Copy, Debug, PartialEq, Eq, Structural)]
pub enum SplitSize {
    Percent(usize),
    Fixed(usize),
}

/// When a swap layout applies, by the number of panes in the tab.
#[derive(Clone, Copy, Debug, PartialEq, Eq, Structural)]
pub enum LayoutConstraint {
    MaxPanes(usize),
    MinPanes(usize),
    ExactPanes(usize),
    NoConstraint,
}

/// What a pane of a layout runs.
#[derive(Debug)]
pub enum Run {
    Plugin(RunPlugin),
    Command(RunCommandAction),
    /// A file in the editor, with a line to open at and a working directory.
    EditFile(String, Option<usize>, Option<String>),
    /// A shell in the given directory.
    Cwd(String),
}

/// The mathematical value of a [`Run`].
pub enum RunView {
    Plugin(RunPluginView),
    Command(RunCommandActionView),
    EditFile(Seq<char>, Option<usize>, Option<Seq<char>>),
    Cwd(Seq<char>),
}

impl View for Run {
    type V = RunView;

    open spec fn view(&self) -> RunView {
        match self {
            Run::Plugin(plugin) => RunView::Plugin(plugin@),
            Run::Command(command) => RunView::Command(command@),
            Run::EditFile(file, line, cwd) => RunView::EditFile(file@, *line, cwd.deep_view()),
            Run::Cwd(dir) => RunView::Cwd(dir@),
        }
    }
}

impl DeepView for Run {
    type V = RunView;

    open spec fn deep_view(&self) -> RunView {
        self@
    }
}

impl PartialEq for Run {
    fn eq(&self, other: &Run) -> (r: bool) {
        match (self, other) {
            (Run::Plugin(a), Run::Plugin(b)) => *a == *b,
            (Run::Command(a), Run::Command(b)) => *a == *b,
            (Run::EditFile(a, la, ca), Run::EditFile(b, lb, cb)) => *a == *b && *la == *lb
                && opt_text_eq(ca, cb),
            (Run::Cwd(a), Run::Cwd(b)) => *a == *b,
            _ => false,
        }
    }
}

impl PartialEqSpecImpl for Run {
    open spec fn obeys_eq_spec() -> bool {
        true
    }

    open spec fn eq_spec(&self, other: &Run) -> bool {
        self@ == other@
    }
}

impl Eq for Run {}

impl Clone for Run {
    fn clone(&self) -> (r: Run)
        ensures
            r@ == self@,
    {
        match self {
            Run::Plugin(plugin) => Run::Plugin(plugin.clone()),
            Run::Command(command) => Run::Command(command.clone()),
            Run::EditFile(file, line, cwd) => Run::EditFile(file.clone(), *line, cwd.clone()),
            Run::Cwd(dir) => Run::Cwd(dir.clone()),
        }
    }
}

/// Whether two optional [`Run`]s are both absent or equal.
pub fn opt_run_eq(a: &Option<Run>, b: &Option<Run>) -> (r: bool)
    ensures
        r == (a.deep_view() == b.deep_view()),
{
    match (a, b) {
        (Some(x), Some(y)) => *x == *y,
        (None, None) => true,
        _ => false,
    }
}

/// A copy of an optional [`Run`].
pub fn clone_opt_run(a: &Option<Run>) -> (r: Option<Run>)
    ensures
        r.deep_view() == a.deep_view(),
{
    match a {
        Some(run) => Some(run.clone()),
        None => None,
    }
}

/// A tiled pane and, inside it, the panes it is split into.
#[derive(Debug)]
pub struct TiledPaneLayout {
    pub children_split_direction: SplitDirection,
    pub name: Option<String>,
    pub children: Vec<TiledPaneLayout>,
    pub split_size: Option<SplitSize>,
    pub run: Option<Run>,
    pub borderless: bool,
    pub focus: Option<bool>,
}

/// The mathematical value of a [`TiledPaneLayout`].
pub struct TiledPaneLayoutView {
    pub children_split_direction: SplitDirection,
    pub name: Option<Seq<char>>,
    pub children: Seq<TiledPaneLayoutView>,
    pub split_size: Option<SplitSize>,
    pub run: Option<RunView>,
    pub borderless: bool,
    pub focus: Option<bool>,
}

impl TiledPaneLayout {
    /// The value of the tree: that of its own fields and, in order, of its
    /// children.
    pub open spec fn model(self) -> TiledPaneLayoutView
        decreases self,
    {
        TiledPaneLayoutView {
            children_split_direction: self.children_split_direction,
            name: self.name.deep_view(),
            children: Seq::new(
                self.children@.len(),
                |i: int|
                    if 0 <= i < self.children@.len() {
                        self.children@[i].model()
                    } else {
                        arbitrary()
                    },
            ),
            split_size: self.split_size,
            run: self.run.deep_view(),
            borderless: self.borderless,
            focus: self.focus,
        }
    }
}

impl View for TiledPaneLayout {
    type V = TiledPaneLayoutView;

    open spec fn view(&self) -> TiledPaneLayoutView {
        self.model()
    }
}

impl DeepView for TiledPaneLayout {
    type V = TiledPaneLayoutView;

    open spec fn deep_view(&self) -> TiledPaneLayoutView {
        self.model()
    }
}

impl PartialEq for TiledPaneLayout {
    fn eq(&self, other: &TiledPaneLayout) -> (r: bool)
        decreases self,
    {
        if self.children_split_direction != other.children_split_direction {
            return false;
        }
        if !opt_text_eq(&self.name, &other.name) {
            return false;
        }
        if self.split_size != other.split_size {
            return false;
        }
        if !opt_run_eq(&self.run, &other.run) {
            return false;
        }
        if self.borderless != other.borderless {
            return false;
        }
        if self.focus != other.focus {
            return false;
        }
        if self.children.len() != other.children.len() {
            assert(self@.children.len() != other@.children.len());
            return false;
        }
        let mut i: usize = 0;
        while i < self.children.len()
            invariant
                i <= self.children.len(),
                self.children.len() == other.children.len(),
                forall|j: int| 0 <= j < i ==> self.children@[j]@ == other.children@[j]@,
            decreases self.children.len() - i,
        {
            if !self.children[i].eq(&other.children[i]) {
                assert(self@.children[i as int] != other@.children[i as int]);
                return false;
            }
            i = i + 1;
        }
        assert(self@.children =~= other@.children);
        true
    }
}

impl PartialEqSpecImpl for TiledPaneLayout {
    open spec fn obeys_eq_spec() -> bool {
        true
    }

    open spec fn eq_spec(&self, other: &TiledPaneLayout) -> bool {
        self@ == other@
    }
}

impl Eq for TiledPaneLayout {}

impl Clone for TiledPaneLayout {
    fn clone(&self) -> (r: TiledPaneLayout)
        ensures
            r@ == self@,
        decreases self,
    {
        let mut children: Vec<TiledPaneLayout> = Vec::new();
        let mut i: usize = 0;
        while i < self.children.len()
            invariant
                i <= self.children.len(),
                children.len() == i,
                forall|j: int| 0 <= j < i ==> children@[j]@ == self.children@[j]@,
            decreases self.children.len() - i,
        {
            children.push(self.children[i].clone());
            i = i + 1;
        }
        let r = TiledPaneLayout {
            children_split_direction: self.children_split_direction,
            name: self.name.clone(),
            children,
            split_size: self.split_size,
            run: clone_opt_run(&self.run),
            borderless: self.borderless,
            focus: self.focus,
        };
        assert(r@.children =~= self@.children);
        r
    }
}

impl Default for TiledPaneLayout {
    /// A single unnamed pane with a frame, split horizontally, that runs the
    /// default shell.
    fn default() -> (r: TiledPaneLayout)
        ensures
            r@ == TiledPaneLayoutView::single_pane(),
    {
        let r = TiledPaneLayout {
            children_split_direction: SplitDirection::Horizontal,
            name: None,
            children: Vec::new(),
            split_size: None,
            run: None,
            borderless: false,
            focus: None,
        };
        assert(r@.children =~= Seq::<TiledPaneLayoutView>::empty());
        r
    }
}

impl TiledPaneLayoutView {
    /// The layout of a tab that holds one plain pane.
    pub open spec fn single_pane() -> TiledPaneLayoutView {
        TiledPaneLayoutView {
            children_split_direction: SplitDirection::Horizontal,
            name: None,
            children: Seq::empty(),
            split_size: None,
            run: None,
            borderless: false,
            focus: None,
        }
    }
}

/// A pane that floats above the tiled ones.
#[derive(Debug)]
pub struct FloatingPaneLayout {
    pub name: Option<String>,
    pub height: Option<SplitSize>,
    pub width: Option<SplitSize>,
    pub x: Option<SplitSize>,
    pub y: Option<SplitSize>,
    pub run: Option<Run>,
    pub focus: Option<bool>,
}

/// The mathematical value of a [`FloatingPaneLayout`].
pub struct FloatingPaneLayoutView {
    pub name: Option<Seq<char>>,
    pub height: Option<SplitSize>,
    pub width: Option<SplitSize>,
    pub x: Option<SplitSize>,
    pub y: Option<SplitSize>,
    pub run: Option<RunView>,
    pub focus: Option<bool>,
}

impl View for FloatingPaneLayout {
    type V = FloatingPaneLayoutView;

    open spec fn view(&self) -> FloatingPaneLayoutView {
        FloatingPaneLayoutView {
            name: self.name.deep_view(),
            height: self.height,
            width: self.width,
            x: self.x,
            y: self.y,
            run: self.run.deep_view(),
            focus: self.focus,
        }
    }
}

impl DeepView for FloatingPaneLayout {
    type V = FloatingPaneLayoutView;

    open spec fn deep_view(&self) -> FloatingPaneLayoutView {
        self@
    }
}

impl PartialEq for FloatingPaneLayout {
    fn eq(&self, other: &FloatingPaneLayout) -> (r: bool) {
        opt_text_eq(&self.name, &other.name) && self.height == other.height && self.width
            == other.width && self.x == other.x && self.y == other.y && opt_run_eq(
            &self.run,
            &other.run,
        ) && self.focus == other.focus
    }
}

impl PartialEqSpecImpl for FloatingPaneLayout {
    open spec fn obeys_eq_spec() -> bool {
        true
    }

    open spec fn eq_spec(&self, other: &FloatingPaneLayout) -> bool {
        self@ == other@
    }
}

impl Eq for FloatingPaneLayout {}

impl Clone for FloatingPaneLayout {
    fn clone(&self) -> (r: FloatingPaneLayout)
        ensures
            r@ == self@,
    {
        FloatingPaneLayout {
            name: self.name.clone(),
            height: self.height,
            width: self.width,
            x: self.x,
            y: self.y,
            run: clone_opt_run(&self.run),
            focus: self.focus,
        }
    }
}

/// Whether two lists of floating panes are equal, pane by pane.
pub fn floating_panes_eq(a: &Vec<FloatingPaneLayout>, b: &Vec<FloatingPaneLayout>) -> (r: bool)
    ensures
        r == (a.deep_view() == b.deep_view()),
{
    if a.len() != b.len() {
        assert(a.deep_view().len() != b.deep_view().len());
        return false;
    }
    let mut i: usize = 0;
    while i < a.len()
        invariant
            i <= a.len(),
            a.len() == b.len(),
            forall|j: int| 0 <= j < i ==> a@[j]@ == b@[j]@,
        decreases a.len() - i,
    {
        if a[i] != b[i] {
            assert(a.deep_view()[i as int] != b.deep_view()[i as int]);
            return false;
        }
        i = i + 1;
    }
    assert(a.deep_view() =~= b.deep_view());
    true
}

/// A copy of a list of floating panes.
pub fn clone_floating_panes(v: &Vec<FloatingPaneLayout>) -> (r: Vec<FloatingPaneLayout>)
    ensures
        r.deep_view() == v.deep_view(),
{
    let mut r: Vec<FloatingPaneLayout> = Vec::new();
    let mut i: usize = 0;
    while i < v.len()
        invariant
            i <= v.len(),
            r.len() == i,
            forall|j: int| 0 <= j < i ==> r@[j]@ == v@[j]@,
        decreases v.len() - i,
    {
        r.push(v[i].clone());
        i = i + 1;
    }
    assert(r.deep_view() =~= v.deep_view());
    r
}

/// Alternative arrangements of the tiled panes of a tab, to switch between while it is open.
#[derive(Debug)]
pub struct SwapTiledLayout {
    /// The name the layout is known by, if it has one.
    pub name: Option<String>,
    /// The arrangements, each with the constraint under which it applies.
    pub layouts: Vec<(LayoutConstraint, TiledPaneLayout)>,
}

/// The mathematical value of a [`SwapTiledLayout`].
pub struct SwapTiledLayoutView {
    pub name: Option<Seq<char>>,
    pub layouts: Seq<(LayoutConstraint, TiledPaneLayoutView)>,
}

impl View for SwapTiledLayout {
    type V = SwapTiledLayoutView;

    open spec fn view(&self) -> SwapTiledLayoutView {
        SwapTiledLayoutView {
            name: self.name.deep_view(),
            layouts: Seq::new(
                self.layouts@.len(),
                |i: int| (self.layouts@[i].0, self.layouts@[i].1@),
            ),
        }
    }
}

impl DeepView for SwapTiledLayout {
    type V = SwapTiledLayoutView;

    open spec fn deep_view(&self) -> SwapTiledLayoutView {
        self@
    }
}

impl PartialEq for SwapTiledLayout {
    fn eq(&self, other: &SwapTiledLayout) -> (r: bool) {
        if !opt_text_eq(&self.name, &other.name) {
            return false;
        }
        if self.layouts.len() != other.layouts.len() {
            assert(self@.layouts.len() != other@.layouts.len());
            return false;
        }
        let mut i: usize = 0;
        while i < self.layouts.len()
            invariant
                i <= self.layouts.len(),
                self.layouts.len() == other.layouts.len(),
                forall|j: int| 0 <= j < i ==> self@.layouts[j] == other@.layouts[j],
            decreases self.layouts.len() - i,
        {
            if self.layouts[i].0 != other.layouts[i].0 || self.layouts[i].1 != other.layouts[i].1 {
                assert(self@.layouts[i as int] != other@.layouts[i as int]);
                return false;
            }
            i = i + 1;
        }
        assert(self@.layouts =~= other@.layouts);
        true
    }
}

impl PartialEqSpecImpl for SwapTiledLayout {
    open spec fn obeys_eq_spec() -> bool {
        true
    }

    open spec fn eq_spec(&self, other: &SwapTiledLayout) -> bool {
        self@ == other@
    }
}

impl Eq for SwapTiledLayout {}

impl Clone for SwapTiledLayout {
    fn clone(&self) -> (r: SwapTiledLayout)
        ensures
            r@ == self@,
    {
        let mut layouts: Vec<(LayoutConstraint, TiledPaneLayout)> = Vec::new();
        let mut i: usize = 0;
        while i < self.layouts.len()
            invariant
                i <= self.layouts.len(),
                layouts.len() == i,
                forall|j: int|
                    0 <= j < i ==> layouts@[j].0 == self.layouts@[j].0 && layouts@[j].1@
                        == self.layouts@[j].1@,
            decreases self.layouts.len() - i,
        {
            layouts.push((self.layouts[i].0, self.layouts[i].1.clone()));
            i = i + 1;
        }
        let r = SwapTiledLayout { name: self.name.clone(), layouts };
        assert(r@.layouts =~= self@.layouts);
        r
    }
}

/// Alternative arrangements of the floating panes of a tab, to switch between while it is open.
#[derive(Debug)]
pub struct SwapFloatingLayout {
    /// The name the layout is known by, if it has one.
    pub name: Option<String>,
    /// The arrangements, each with the constraint under which it applies.
    pub layouts: Vec<(LayoutConstraint, Vec<FloatingPaneLayout>)>,
}

/// The mathematical value of a [`SwapFloatingLayout`].
pub struct SwapFloatingLayoutView {
    pub name: Option<Seq<char>>,
    pub layouts: Seq<(LayoutConstraint, Seq<FloatingPaneLayoutView>)>,
}

impl View for SwapFloatingLayout {
    type V = SwapFloatingLayoutView;

    open spec fn view(&self) -> SwapFloatingLayoutView {
        SwapFloatingLayoutView {
            name: self.name.deep_view(),
            layouts: Seq::new(
                self.layouts@.len(),
                |i: int| (self.layouts@[i].0, self.layouts@[i].1.deep_view()),
            ),
        }
    }
}

impl DeepView for SwapFloatingLayout {
    type V = SwapFloatingLayoutView;

    open spec fn deep_view(&self) -> SwapFloatingLayoutView {
        self@
    }
}

impl PartialEq for SwapFloatingLayout {
    fn eq(&self, other: &SwapFloatingLayout) -> (r: bool) {
        if !opt_text_eq(&self.name, &other.name) {
            return false;
        }
        if self.layouts.len() != other.layouts.len() {
            assert(self@.layouts.len() != other@.layouts.len());
            return false;
        }
        let mut i: usize = 0;
        while i < self.layouts.len()
            invariant
                i <= self.layouts.len(),
                self.layouts.len() == other.layouts.len(),
                forall|j: int| 0 <= j < i ==> self@.layouts[j] == other@.layouts[j],
            decreases self.layouts.len() - i,
        {
            if self.layouts[i].0 != other.layouts[i].0 || !floating_panes_eq(
                &self.layouts[i].1,
                &other.layouts[i].1,
            ) {
                assert(self@.layouts[i as int] != other@.layouts[i as int]);
                return false;
            }
            i = i + 1;
        }
        assert(self@.layouts =~= other@.layouts);
        true
    }
}

impl PartialEqSpecImpl for SwapFloatingLayout {
    open spec fn obeys_eq_spec() -> bool {
        true
    }

    open spec fn eq_spec(&self, other: &SwapFloatingLayout) -> bool {
        self@ == other@
    }
}

impl Eq for SwapFloatingLayout {}

impl Clone for SwapFloatingLayout {
    fn clone(&self) -> (r: SwapFloatingLayout)
        ensures
            r@ == self@,
    {
        let mut layouts: Vec<(LayoutConstraint, Vec<FloatingPaneLayout>)> = Vec::new();
        let mut i: usize = 0;
        while i < self.layouts.len()
            invariant
                i <= self.layouts.len(),
                layouts.len() == i,
                forall|j: int|
                    0 <= j < i ==> layouts@[j].0 == self.layouts@[j].0 && layouts@[j].1.deep_view()
                        == self.layouts@[j].1.deep_view(),
            decreases self.layouts.len() - i,
        {
            layouts.push((self.layouts[i].0, clone_floating_panes(&self.layouts[i].1)));
            i = i + 1;
        }
        let r = SwapFloatingLayout { name: self.name.clone(), layouts };
        assert(r@.layouts =~= self@.layouts);
        r
    }
}

/// Whether two lists of swap layouts of tiled panes are equal, item by item.
pub fn swap_tiled_layouts_eq(a: &Vec<SwapTiledLayout>, b: &Vec<SwapTiledLayout>) -> (r: bool)
    ensures
        r == (a.deep_view() == b.deep_view()),
{
    if a.len() != b.len() {
        assert(a.deep_view().len() != b.deep_view().len());
        return false;
    }
    let mut i: usize = 0;
    while i < a.len()
        invariant
            i <= a.len(),
            a.len() == b.len(),
            forall|j: int| 0 <= j < i ==> a@[j]@ == b@[j]@,
        decreases a.len() - i,
    {
        if a[i] != b[i] {
            assert(a.deep_view()[i as int] != b.deep_view()[i as int]);
            return false;
        }
        i = i + 1;
    }
    assert(a.deep_view() =~= b.deep_view());
    true
}

/// A copy of a list of swap layouts of tiled panes.
pub fn clone_swap_tiled_layouts(v: &Vec<SwapTiledLayout>) -> (r: Vec<SwapTiledLayout>)
    ensures
        r.deep_view() == v.deep_view(),
{
    let mut r: Vec<SwapTiledLayout> = Vec::new();
    let mut i: usize = 0;
    while i < v.len()
        invariant
            i <= v.len(),
            r.len() == i,
            forall|j: int| 0 <= j < i ==> r@[j]@ == v@[j]@,
        decreases v.len() - i,
    {
        r.push(v[i].clone());
        i = i + 1;
    }
    assert(r.deep_view() =~= v.deep_view());
    r
}

/// Whether two optional lists of swap layouts of tiled panes are both absent or equal.
pub fn opt_swap_tiled_layouts_eq(
    a: &Option<Vec<SwapTiledLayout>>,
    b: &Option<Vec<SwapTiledLayout>>,
) -> (r: bool)
    ensures
        r == (a.deep_view() == b.deep_view()),
{
    match (a, b) {
        (Some(x), Some(y)) => swap_tiled_layouts_eq(x, y),
        (None, None) => true,
        _ => false,
    }
}

/// A copy of an optional list of swap layouts of tiled panes.
pub fn clone_opt_swap_tiled_layouts(
    a: &Option<Vec<SwapTiledLayout>>,
) -> (r: Option<Vec<SwapTiledLayout>>)
    ensures
        r.deep_view() == a.deep_view(),
{
    match a {
        Some(v) => Some(clone_swap_tiled_layouts(v)),
        None => None,
    }
}

/// Whether two lists of swap layouts of floating panes are equal, item by item.
pub fn swap_floating_layouts_eq(
    a: &Vec<SwapFloatingLayout>,
    b: &Vec<SwapFloatingLayout>,
) -> (r: bool)
    ensures
        r == (a.deep_view() == b.deep_view()),
{
    if a.len() != b.len() {
        assert(a.deep_view().len() != b.deep_view().len());
        return false;
    }
    let mut i: usize = 0;
    while i < a.len()
        invariant
            i <= a.len(),
            a.len() == b.len(),
            forall|j: int| 0 <= j < i ==> a@[j]@ == b@[j]@,
        decreases a.len() - i,
    {
        if a[i] != b[i] {
            assert(a.deep_view()[i as int] != b.deep_view()[i as int]);
            return false;
        }
        i = i + 1;
    }
    assert(a.deep_view() =~= b.deep_view());
    true
}

/// A copy of a list of swap layouts of floating panes.
pub fn clone_swap_floating_layouts(v: &Vec<SwapFloatingLayout>) -> (r: Vec<SwapFloatingLayout>)
    ensures
        r.deep_view() == v.deep_view(),
{
    let mut r: Vec<SwapFloatingLayout> = Vec::new();
    let mut i: usize = 0;
    while i < v.len()
        invariant
            i <= v.len(),
            r.len() == i,
            forall|j: int| 0 <= j < i ==> r@[j]@ == v@[j]@,
        decreases v.len() - i,
    {
        r.push(v[i].clone());
        i = i + 1;
    }
    assert(r.deep_view() =~= v.deep_view());
    r
}

/// Whether two optional lists of swap layouts of floating panes are both absent or equal.
pub fn opt_swap_floating_layouts_eq(
    a: &Option<Vec<SwapFloatingLayout>>,
    b: &Option<Vec<SwapFloatingLayout>>,
) -> (r: bool)
    ensures
        r == (a.deep_view() == b.deep_view()),
{
    match (a, b) {
        (Some(x), Some(y)) => swap_floating_layouts_eq(x, y),
        (None, None) => true,
        _ => false,
    }
}

/// A copy of an optional list of swap layouts of floating panes.
pub fn clone_opt_swap_floating_layouts(
    a: &Option<Vec<SwapFloatingLayout>>,
) -> (r: Option<Vec<SwapFloatingLayout>>)
    ensures
        r.deep_view() == a.deep_view(),
{
    match a {
        Some(v) => Some(clone_swap_floating_layouts(v)),
        None => None,
    }
}

/// Whether two optional tiled layouts are both absent or equal.
pub fn opt_tiled_eq(a: &Option<TiledPaneLayout>, b: &Option<TiledPaneLayout>) -> (r: bool)
    ensures
        r == (a.deep_view() == b.deep_view()),
{
    match (a, b) {
        (Some(x), Some(y)) => *x == *y,
        (None, None) => true,
        _ => false,
    }
}

/// A copy of an optional tiled layout.
pub fn clone_opt_tiled(a: &Option<TiledPaneLayout>) -> (r: Option<TiledPaneLayout>)
    ensures
        r.deep_view() == a.deep_view(),
{
    match a {
        Some(layout) => Some(layout.clone()),
        None => None,
    }
}

/// A layout description as it is read from a file, before parsing.
#[derive(Clone, Debug)]
pub struct RawLayout {
    /// The path of the file that the description was found at.
    pub path: String,
    /// The text of the description.
    pub text: String,
    /// The text of the swap layouts that go with it, where a file beside the
    /// description holds them: the path of that file and its text.
    pub swap_layouts: Option<(String, String)>,
}

/// A layout description after parsing: the tabs it defines, the template for
/// further tabs, and the swap layouts that go with them.
#[derive(Debug)]
pub struct Layout {
    /// The tabs, each with its name, its tiled panes and its floating panes.
    pub tabs: Vec<(Option<String>, TiledPaneLayout, Vec<FloatingPaneLayout>)>,
    /// The panes of a tab that is opened later, where the description says so.
    pub template: Option<(TiledPaneLayout, Vec<FloatingPaneLayout>)>,
    pub swap_tiled_layouts: Vec<SwapTiledLayout>,
    pub swap_floating_layouts: Vec<SwapFloatingLayout>,
}

impl Layout {
    /// The panes of a fresh tab: the template of the description, or one
    /// plain pane where it has none.
    pub open spec fn spec_new_tab(self) -> (TiledPaneLayoutView, Seq<FloatingPaneLayoutView>) {
        match self.template {
            Some(template) => (template.0@, template.1.deep_view()),
            None => (TiledPaneLayoutView::single_pane(), Seq::empty()),
        }
    }

    /// The panes of a fresh tab, tiled and floating.
    pub fn new_tab(&self) -> (r: (TiledPaneLayout, Vec<FloatingPaneLayout>))
        ensures
            (r.0@, r.1.deep_view()) == self.spec_new_tab(),
    {
        match &self.template {
            Some(template) => (template.0.clone(), clone_floating_panes(&template.1)),
            None => {
                let floating: Vec<FloatingPaneLayout> = Vec::new();
                assert(floating.deep_view() =~= Seq::<FloatingPaneLayoutView>::empty());
                (TiledPaneLayout::default(), floating)
            },
        }
    }
}

} // verus!
