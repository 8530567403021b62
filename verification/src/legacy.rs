//! What earlier versions of the helper may have left behind, and the plan
//! for sweeping it away.
//!
//! The table of legacy artifacts is data: services with their manifests,
//! helper binaries, and bundle directories. A new legacy version is added
//! by adding to the table. The plan lays the table out as a sequence of
//! steps, in the order in which the sweep takes them.

use crate::text::{prefixed, texts};
use vstd::prelude::*;
use vstd::string::*;

verus! {

/// The platforms told apart: the one whose service manager ran the legacy
/// helpers, and all others, where nothing was ever installed.
#[derive(Debug, Clone, Copy, PartialEq, Eq)]
pub enum Platform {
    MacOs,
    Other,
}

/// A legacy service: the name it was registered under, and the manifest that
/// described it to the service manager.
#[derive(Debug, PartialEq, Eq)]
pub struct LegacyItem {
    pub identifier: String,
    pub manifest_path: String,
}

/// What a [`LegacyItem`] holds, as plain text.
pub struct LegacyItemView {
    pub identifier: Seq<char>,
    pub manifest_path: Seq<char>,
}

impl View for LegacyItem {
    type V = LegacyItemView;

    open spec fn view(&self) -> LegacyItemView {
        LegacyItemView { identifier: self.identifier@, manifest_path: self.manifest_path@ }
    }
}

/// All that earlier versions may have left behind, in the order in which it
/// is dealt with: services, then helper binaries, then bundle directories.
#[derive(Debug, PartialEq, Eq)]
pub struct LegacyTable {
    pub items: Vec<LegacyItem>,
    pub binaries: Vec<String>,
    pub bundles: Vec<String>,
}

/// What a [`LegacyTable`] holds, as plain text.
pub struct LegacyTableView {
    pub items: Seq<LegacyItemView>,
    pub binaries: Seq<Seq<char>>,
    pub bundles: Seq<Seq<char>>,
}

/// The views of a list of legacy services, in order.
pub open spec fn item_views(items: Seq<LegacyItem>) -> Seq<LegacyItemView> {
    items.map_values(|item: LegacyItem| item@)
}

impl View for LegacyTable {
    type V = LegacyTableView;

    open spec fn view(&self) -> LegacyTableView {
        LegacyTableView {
            items: item_views(self.items@),
            binaries: texts(self.binaries@),
            bundles: texts(self.bundles@),
        }
    }
}

/// What kind of file a removal is about.
#[derive(Debug, Clone, Copy, PartialEq, Eq)]
pub enum ArtifactKind {
    Manifest,
    Binary,
    Bundle,
}

impl ArtifactKind {
    /// The kind in words, as error messages name it.
    pub open spec fn label(self) -> Seq<char> {
        match self {
            ArtifactKind::Manifest => "launchd plist"@,
            ArtifactKind::Binary => "helper binary"@,
            ArtifactKind::Bundle => "service bundle"@,
        }
    }

    /// The kind in words, as error messages name it.
    pub fn name(&self) -> (name: &'static str)
        ensures
            name@ == self.label(),
    {
        match self {
            ArtifactKind::Manifest => "launchd plist",
            ArtifactKind::Binary => "helper binary",
            ArtifactKind::Bundle => "service bundle",
        }
    }
}

/// One step of a sweep.
#[derive(Debug, PartialEq, Eq)]
pub enum Step {
    /// Ask the service manager to do something, with these arguments, and
    /// go on whatever it says.
    Probe { args: Vec<String> },
    /// Remove what is at `path`, if anything is there.
    Remove { kind: ArtifactKind, path: String },
}

/// What a [`Step`] holds, as plain text.
pub enum StepView {
    Probe { args: Seq<Seq<char>> },
    Remove { kind: ArtifactKind, path: Seq<char> },
}

impl View for Step {
    type V = StepView;

    open spec fn view(&self) -> StepView {
        match self {
            Step::Probe { args } => StepView::Probe { args: texts(args@) },
            Step::Remove { kind, path } => StepView::Remove { kind: *kind, path: path@ },
        }
    }
}

/// The views of a list of steps, in order.
pub open spec fn step_views(steps: Seq<Step>) -> Seq<StepView> {
    steps.map_values(|step: Step| step@)
}

impl LegacyItemView {
    /// The steps that deal with one legacy service: stop it, unload its
    /// manifest from the system domain, disable it, and remove the manifest.
    pub open spec fn steps(self) -> Seq<StepView> {
        seq![
            StepView::Probe { args: seq!["stop"@, self.identifier] },
            StepView::Probe { args: seq!["bootout"@, "system"@, self.manifest_path] },
            StepView::Probe { args: seq!["disable"@, "system/"@ + self.identifier] },
            StepView::Remove { kind: ArtifactKind::Manifest, path: self.manifest_path },
        ]
    }
}

/// The steps for `items`, item after item.
pub open spec fn item_steps(items: Seq<LegacyItemView>) -> Seq<StepView>
    decreases items.len(),
{
    if items.len() == 0 {
        Seq::empty()
    } else {
        item_steps(items.drop_last()) + items.last().steps()
    }
}

/// One removal of the given kind for each of `paths`, in order.
pub open spec fn removals(kind: ArtifactKind, paths: Seq<Seq<char>>) -> Seq<StepView> {
    paths.map_values(|path: Seq<char>| StepView::Remove { kind, path })
}

impl LegacyTableView {
    /// The sweep's plan: the steps for each service, then the removal of
    /// each helper binary, then of each bundle.
    pub open spec fn plan(self) -> Seq<StepView> {
        item_steps(self.items) + removals(ArtifactKind::Binary, self.binaries) + removals(
            ArtifactKind::Bundle,
            self.bundles,
        )
    }

    /// Every name and every path in the table is non-empty.
    pub open spec fn well_formed(self) -> bool {
        &&& forall|i: int|
            0 <= i < self.items.len() ==> (#[trigger] self.items[i]).identifier.len() > 0
                && self.items[i].manifest_path.len() > 0
        &&& forall|i: int| 0 <= i < self.binaries.len() ==> (#[trigger] self.binaries[i]).len() > 0
        &&& forall|i: int| 0 <= i < self.bundles.len() ==> (#[trigger] self.bundles[i]).len() > 0
    }
}

/// The legacy table of each platform.
pub open spec fn legacy_table_view(platform: Platform) -> LegacyTableView {
    match platform {
        Platform::MacOs => LegacyTableView {
            items: seq![
                LegacyItemView {
                    identifier: "io.github.clashverge.helper"@,
                    manifest_path: "/Library/LaunchDaemons/io.github.clashverge.helper.plist"@,
                },
                LegacyItemView {
                    identifier: "io.github.koala-clash.helper"@,
                    manifest_path: "/Library/LaunchDaemons/io.github.koala-clash.helper.plist"@,
                },
                LegacyItemView {
                    identifier: "io.github.koala-clash.service"@,
                    manifest_path: "/Library/LaunchDaemons/io.github.koala-clash.service.plist"@,
                },
            ],
            binaries: seq![
                "/Library/PrivilegedHelperTools/io.github.clashverge.helper"@,
                "/Library/PrivilegedHelperTools/io.github.koala-clash.helper"@,
            ],
            bundles: seq!["/Library/PrivilegedHelperTools/io.github.koala-clash.service.bundle"@],
        },
        Platform::Other => LegacyTableView {
            items: Seq::empty(),
            binaries: Seq::empty(),
            bundles: Seq::empty(),
        },
    }
}

/// A legacy service with the given name and manifest.
fn legacy_item(identifier: &str, manifest_path: &str) -> (item: LegacyItem)
    ensures
        item@ == (LegacyItemView { identifier: identifier@, manifest_path: manifest_path@ }),
{
    LegacyItem {
        identifier: String::from_str(identifier),
        manifest_path: String::from_str(manifest_path),
    }
}

/// The legacy table of `platform`.
pub fn legacy_table(platform: Platform) -> (table: LegacyTable)
    ensures
        table@ == legacy_table_view(platform),
        table@.well_formed(),
{
    let mut items: Vec<LegacyItem> = Vec::new();
    let mut binaries: Vec<String> = Vec::new();
    let mut bundles: Vec<String> = Vec::new();
    match platform {
        Platform::MacOs => {
            items.push(
                legacy_item(
                    "io.github.clashverge.helper",
                    "/Library/LaunchDaemons/io.github.clashverge.helper.plist",
                ),
            );
            items.push(
                legacy_item(
                    "io.github.koala-clash.helper",
                    "/Library/LaunchDaemons/io.github.koala-clash.helper.plist",
                ),
            );
            items.push(
                legacy_item(
                    "io.github.koala-clash.service",
                    "/Library/LaunchDaemons/io.github.koala-clash.service.plist",
                ),
            );
            binaries.push(
                String::from_str("/Library/PrivilegedHelperTools/io.github.clashverge.helper"),
            );
            binaries.push(
                String::from_str("/Library/PrivilegedHelperTools/io.github.koala-clash.helper"),
            );
            bundles.push(
                String::from_str(
                    "/Library/PrivilegedHelperTools/io.github.koala-clash.service.bundle",
                ),
            );
            proof {
                reveal_strlit("io.github.clashverge.helper");
                reveal_strlit("io.github.koala-clash.helper");
                reveal_strlit("io.github.koala-clash.service");
                reveal_strlit("/Library/LaunchDaemons/io.github.clashverge.helper.plist");
                reveal_strlit("/Library/LaunchDaemons/io.github.koala-clash.helper.plist");
                reveal_strlit("/Library/LaunchDaemons/io.github.koala-clash.service.plist");
                reveal_strlit("/Library/PrivilegedHelperTools/io.github.clashverge.helper");
                reveal_strlit("/Library/PrivilegedHelperTools/io.github.koala-clash.helper");
                reveal_strlit("/Library/PrivilegedHelperTools/io.github.koala-clash.service.bundle");
            }
        },
        Platform::Other => {},
    }
    let table = LegacyTable { items, binaries, bundles };
    proof {
        assert(table@.items =~= legacy_table_view(platform).items);
        assert(table@.binaries =~= legacy_table_view(platform).binaries);
        assert(table@.bundles =~= legacy_table_view(platform).bundles);
    }
    table
}

/// Adds `step` at the end of `steps`.
fn push_step(steps: &mut Vec<Step>, step: Step)
    ensures
        step_views(final(steps)@) == step_views(old(steps)@).push(step@),
{
    proof {
        assert(step_views(steps@.push(step)) =~= step_views(steps@).push(step@));
    }
    steps.push(step);
}

/// A probe with the given arguments.
fn probe(args: Vec<String>) -> (step: Step)
    ensures
        step@ == (StepView::Probe { args: texts(args@) }),
{
    Step::Probe { args }
}

/// Adds one removal of the given kind for each of `paths` at the end of
/// `steps`.
fn push_removals(steps: &mut Vec<Step>, kind: ArtifactKind, paths: &Vec<String>)
    ensures
        step_views(final(steps)@) == step_views(old(steps)@) + removals(kind, texts(paths@)),
{
    let mut i: usize = 0;
    proof {
        assert(step_views(steps@) + removals(kind, texts(paths@)).take(0) =~= step_views(steps@));
    }
    while i < paths.len()
        invariant
            i <= paths.len(),
            step_views(steps@) == step_views(old(steps)@) + removals(kind, texts(paths@)).take(
                i as int,
            ),
        decreases paths.len() - i,
    {
        let step = Step::Remove { kind, path: paths[i].clone() };
        proof {
            let all = removals(kind, texts(paths@));
            assert(all[i as int] == step@);
            assert((step_views(old(steps)@) + all.take(i as int)).push(step@) =~= step_views(
                old(steps)@,
            ) + all.take(i + 1));
        }
        push_step(steps, step);
        i += 1;
    }
    proof {
        let all = removals(kind, texts(paths@));
        assert(all.take(paths.len() as int) =~= all);
    }
}

impl LegacyItem {
    /// Adds the steps that deal with this service at the end of `steps`.
    fn push_steps(&self, steps: &mut Vec<Step>)
        ensures
            step_views(final(steps)@) == step_views(old(steps)@) + self@.steps(),
    {
        let mut stop: Vec<String> = Vec::new();
        stop.push(String::from_str("stop"));
        stop.push(self.identifier.clone());
        let mut bootout: Vec<String> = Vec::new();
        bootout.push(String::from_str("bootout"));
        bootout.push(String::from_str("system"));
        bootout.push(self.manifest_path.clone());
        let mut disable: Vec<String> = Vec::new();
        disable.push(String::from_str("disable"));
        disable.push(prefixed("system/", self.identifier.as_str()));
        proof {
            assert(texts(stop@) =~= seq!["stop"@, self@.identifier]);
            assert(texts(bootout@) =~= seq!["bootout"@, "system"@, self@.manifest_path]);
            assert(texts(disable@) =~= seq!["disable"@, "system/"@ + self@.identifier]);
        }
        push_step(steps, probe(stop));
        push_step(steps, probe(bootout));
        push_step(steps, probe(disable));
        push_step(
            steps,
            Step::Remove { kind: ArtifactKind::Manifest, path: self.manifest_path.clone() },
        );
        proof {
            assert(step_views(steps@) =~= step_views(old(steps)@) + self@.steps());
        }
    }
}

impl LegacyTable {
    /// Lays the table out as the sweep's plan.
    pub fn plan(&self) -> (steps: Vec<Step>)
        ensures
            step_views(steps@) == self@.plan(),
    {
        let mut steps: Vec<Step> = Vec::new();
        let mut i: usize = 0;
        proof {
            assert(step_views(steps@) =~= item_steps(self@.items.take(0)));
        }
        while i < self.items.len()
            invariant
                i <= self.items.len(),
                step_views(steps@) == item_steps(self@.items.take(i as int)),
            decreases self.items.len() - i,
        {
            proof {
                let upto = self@.items.take(i + 1);
                assert(upto.drop_last() =~= self@.items.take(i as int));
                assert(upto.last() == self.items@[i as int]@);
            }
            self.items[i].push_steps(&mut steps);
            i += 1;
        }
        proof {
            assert(self@.items.take(self.items.len() as int) =~= self@.items);
        }
        push_removals(&mut steps, ArtifactKind::Binary, &self.binaries);
        push_removals(&mut steps, ArtifactKind::Bundle, &self.bundles);
        steps
    }
}

/// The steps for a list of services come in fours, item after item.
proof fn item_steps_layout(items: Seq<LegacyItemView>)
    ensures
        item_steps(items).len() == 4 * items.len(),
        forall|i: int, j: int|
            0 <= i < items.len() && 0 <= j < 4 ==> item_steps(items)[4 * i + j]
                == #[trigger] items[i].steps()[j],
    decreases items.len(),
{
    if items.len() > 0 {
        let front = items.drop_last();
        item_steps_layout(front);
        assert forall|i: int, j: int| 0 <= i < items.len() && 0 <= j < 4 implies item_steps(
            items,
        )[4 * i + j] == #[trigger] items[i].steps()[j] by {
            if i < front.len() {
                assert(front[i] == items[i]);
                assert(item_steps(front)[4 * i + j] == front[i].steps()[j]);
            }
        }
    }
}

/// The plan follows the table: four steps for each service in the table's
/// order, then one removal for each helper binary in order, then one for
/// each bundle in order.
pub proof fn plan_follows_table(table: LegacyTableView)
    ensures
        table.plan().len() == 4 * table.items.len() + table.binaries.len()
            + table.bundles.len(),
        forall|i: int, j: int|
            0 <= i < table.items.len() && 0 <= j < 4 ==> table.plan()[4 * i + j]
                == #[trigger] table.items[i].steps()[j],
        forall|i: int|
            0 <= i < table.binaries.len() ==> table.plan()[4 * table.items.len() + i] == (
            StepView::Remove { kind: ArtifactKind::Binary, path: #[trigger] table.binaries[i] }),
        forall|i: int|
            0 <= i < table.bundles.len() ==> table.plan()[4 * table.items.len()
                + table.binaries.len() + i] == (StepView::Remove {
                kind: ArtifactKind::Bundle,
                path: #[trigger] table.bundles[i],
            }),
{
    item_steps_layout(table.items);
}

} // verus!
