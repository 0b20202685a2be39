//! Listing the installed packages for which a newer version is on offer.

use std::collections::HashMap;
use vstd::prelude::*;
use crate::text::joined;

verus! {

/// How the list of outdated packages is to be written.
#[derive(Clone, Copy, Debug, PartialEq, Eq, Structural)]
pub struct Outdated {
    /// Write one line of JSON for programs to read, in place of a tree for
    /// people.
    pub porcelain: bool,
}

/// An installed package, and the newer version that is on offer for it, if
/// there is one.
#[derive(Clone, Debug, PartialEq, Eq)]
pub struct InstalledRock {
    pub name: String,
    pub version: String,
    pub latest: Option<String>,
}

/// An installed package for which a newer version is on offer.
#[derive(Clone, Debug, PartialEq, Eq)]
pub struct RockUpdate {
    pub name: String,
    pub version: String,
    pub latest: String,
}

/// The updates on offer for the installed versions of one package.
#[derive(Clone, Debug, PartialEq, Eq)]
pub struct RockGroup {
    pub name: String,
    pub updates: Vec<RockUpdate>,
}

/// The mathematical model of [`RockUpdate`].
pub ghost struct UpdateModel {
    pub name: Seq<char>,
    pub version: Seq<char>,
    pub latest: Seq<char>,
}

/// The mathematical model of [`RockGroup`].
pub ghost struct GroupModel {
    pub name: Seq<char>,
    pub updates: Seq<UpdateModel>,
}

impl View for RockUpdate {
    type V = UpdateModel;

    open spec fn view(&self) -> UpdateModel {
        UpdateModel { name: self.name@, version: self.version@, latest: self.latest@ }
    }
}

impl DeepView for RockUpdate {
    type V = UpdateModel;

    open spec fn deep_view(&self) -> UpdateModel {
        self@
    }
}

impl View for RockGroup {
    type V = GroupModel;

    open spec fn view(&self) -> GroupModel {
        GroupModel { name: self.name@, updates: self.updates.deep_view() }
    }
}

impl DeepView for RockGroup {
    type V = GroupModel;

    open spec fn deep_view(&self) -> GroupModel {
        self@
    }
}

/// Why the list could not be written.
#[derive(Clone, Debug, PartialEq, Eq)]
pub enum ReportError {
    /// The JSON writer failed.
    Json { message: String },
    /// The tree writer failed.
    Tree { message: String },
}

/// The updates among `rocks`, in the order of `rocks`: one for each package
/// for which a newer version is on offer.
pub open spec fn updates_of(rocks: Seq<InstalledRock>) -> Seq<UpdateModel>
    decreases rocks.len(),
{
    if rocks.len() == 0 {
        Seq::empty()
    } else {
        let before = updates_of(rocks.drop_last());
        match rocks.last().latest {
            Some(latest) => before.push(
                UpdateModel { name: rocks.last().name@, version: rocks.last().version@, latest: latest@ },
            ),
            None => before,
        }
    }
}

/// The updates of the package called `name`, in the order of `updates`.
pub open spec fn named(updates: Seq<UpdateModel>, name: Seq<char>) -> Seq<UpdateModel> {
    updates.filter(|update: UpdateModel| update.name == name)
}

/// Whether `a` comes before `b`, or is `b`, in the order of strings:
/// character by character, a shorter text before its extensions.
pub open spec fn text_le(a: Seq<char>, b: Seq<char>) -> bool
    decreases a.len(),
{
    if a.len() == 0 {
        true
    } else if b.len() == 0 {
        false
    } else if a[0] != b[0] {
        (a[0] as u32) < (b[0] as u32)
    } else {
        text_le(a.skip(1), b.skip(1))
    }
}

/// Whether `groups` sorts `updates` by package: no package has two groups,
/// every group holds all the updates of its package and only those, in the
/// order of `updates`, and every package with an update has a group.
pub open spec fn grouped(groups: Seq<GroupModel>, updates: Seq<UpdateModel>) -> bool {
    &&& forall|i: int, j: int|
        0 <= i < j < groups.len() ==> (#[trigger] groups[i]).name != (#[trigger] groups[j]).name
    &&& forall|i: int|
        0 <= i < groups.len() ==> (#[trigger] groups[i]).updates.len() > 0 && groups[i].updates
            == named(updates, groups[i].name)
    &&& forall|name: Seq<char>|
        (#[trigger] named(updates, name)).len() > 0 ==> exists|i: int|
            0 <= i < groups.len() && (#[trigger] groups[i]).name == name
}

/// The line that stands for one update: the installed version, an arrow,
/// and the version on offer.
pub open spec fn update_line(update: UpdateModel) -> Seq<char> {
    update.version + " => "@ + update.latest
}

/// The lines under `children`, each behind its branch mark: a corner for
/// the last child, a tee for the others.
pub open spec fn branches(children: Seq<Seq<char>>) -> Seq<char>
    decreases children.len(),
{
    if children.len() == 0 {
        Seq::empty()
    } else {
        (if children.len() == 1 {
            seq!['\u{2514}', '\u{2500}', '\u{2500}', ' ']
        } else {
            seq!['\u{251c}', '\u{2500}', '\u{2500}', ' ']
        }) + children[0] + seq!['\n'] + branches(children.skip(1))
    }
}

/// The text of a tree of one level: the root on a line of its own, then one
/// line for each child.
pub open spec fn tree_text(root: Seq<char>, children: Seq<Seq<char>>) -> Seq<char> {
    root + seq!['\n'] + branches(children)
}

/// Sorts updates by the name of their package.
///
/// Trusted: this is `itertools::Itertools::sorted_by_key`, which sorts with
/// std's stable `sort_by_key`. The result holds what went in, in ascending
/// order of the names; updates of one package keep their order.
#[verifier::external_body]
fn sorted_by_name(updates: Vec<RockUpdate>) -> (sorted: Vec<RockUpdate>)
    ensures
        sorted@.len() == updates@.len(),
        forall|name: Seq<char>|
            #[trigger] named(sorted.deep_view(), name) == named(updates.deep_view(), name),
        forall|i: int, j: int|
            0 <= i <= j < sorted@.len() ==> text_le(
                (#[trigger] sorted@[i]).name@,
                (#[trigger] sorted@[j]).name@,
            ),
{
    itertools::Itertools::sorted_by_key(updates.into_iter(), |update| update.name.clone()).collect()
}

/// Collects updates by the name of their package.
///
/// Trusted: this is `itertools::Itertools::into_group_map_by`, which fills a
/// hash map from each name to the updates of that name in the order in
/// which they came; the map's entries are handed out as groups. Nothing is
/// said of the order of the groups, which is that of the hash map.
#[verifier::external_body]
fn grouped_by_name(updates: Vec<RockUpdate>) -> (groups: Vec<RockGroup>)
    ensures
        grouped(groups.deep_view(), updates.deep_view()),
{
    itertools::Itertools::into_group_map_by(updates.into_iter(), |update| update.name.clone())
        .into_iter()
        .map(|(name, updates)| RockGroup { name, updates })
        .collect()
}

/// Writes a root and its children as a tree drawn with box characters.
///
/// Trusted: this is `text_trees::TreeNode::with_children` followed by
/// `to_string_with_format` with `TreeFormatting::dir_tree` over
/// `FormatCharacters::box_chars`. For a tree of one level the text is the
/// root's line followed by one line for each child behind its branch mark.
#[verifier::external_body]
fn tree_of(root: &str, children: &Vec<String>) -> (text: Result<String, String>)
    ensures
        text matches Ok(text) ==> text@ == tree_text(root@, children.deep_view()),
{
    let formatting = text_trees::TreeFormatting::dir_tree(text_trees::FormatCharacters::box_chars());
    let tree = text_trees::StringTreeNode::with_children(root.to_string(), children.iter().cloned());
    tree.to_string_with_format(&formatting).map_err(|error| error.to_string())
}

/// Writes the groups as one JSON object: under each package's name an object
/// that maps each installed version to the version on offer.
///
/// Trusted: this is `serde_json::to_string` on hash maps filled from the
/// groups. The order of the keys is that of the hash maps, so nothing is
/// claimed of the text.
#[verifier::external_body]
fn json_of(groups: &Vec<RockGroup>) -> (text: Result<String, String>) {
    let updates: HashMap<&String, HashMap<&String, &String>> = groups
        .iter()
        .map(|group| (&group.name, group.updates.iter().map(|u| (&u.version, &u.latest)).collect()))
        .collect();
    serde_json::to_string(&updates).map_err(|error| error.to_string())
}

/// The updates among `rocks`.
pub fn outdated_rocks(rocks: &Vec<InstalledRock>) -> (updates: Vec<RockUpdate>)
    ensures
        updates.deep_view() == updates_of(rocks@),
{
    let mut updates: Vec<RockUpdate> = Vec::new();
    let mut i: usize = 0;
    assert(rocks@.take(0) == Seq::<InstalledRock>::empty());
    assert(updates.deep_view() =~= updates_of(rocks@.take(0)));
    while i < rocks.len()
        invariant
            i <= rocks.len(),
            updates.deep_view() == updates_of(rocks@.take(i as int)),
        decreases rocks.len() - i,
    {
        let ghost before = updates.deep_view();
        proof {
            let next = rocks@.take(i + 1);
            assert(next.drop_last() == rocks@.take(i as int));
            assert(next.last() == rocks@[i as int]);
        }
        if let Some(latest) = &rocks[i].latest {
            let update = RockUpdate {
                name: rocks[i].name.clone(),
                version: rocks[i].version.clone(),
                latest: latest.clone(),
            };
            updates.push(update);
            assert(updates.deep_view() =~= before.push(update@));
        }
        i += 1;
    }
    assert(rocks@.take(rocks@.len() as int) == rocks@);
    updates
}

/// The updates among `rocks`, sorted by the name of their package; updates
/// of one package keep the order of `rocks`.
pub fn sorted_updates(rocks: &Vec<InstalledRock>) -> (sorted: Vec<RockUpdate>)
    ensures
        sorted@.len() == updates_of(rocks@).len(),
        forall|name: Seq<char>|
            #[trigger] named(sorted.deep_view(), name) == named(updates_of(rocks@), name),
        forall|i: int, j: int|
            0 <= i <= j < sorted@.len() ==> text_le(
                (#[trigger] sorted@[i]).name@,
                (#[trigger] sorted@[j]).name@,
            ),
{
    let updates = outdated_rocks(rocks);
    assert(updates@.len() == updates.deep_view().len());
    sorted_by_name(updates)
}

/// Sorts the updates among `rocks` by package.
pub fn outdated_groups(rocks: &Vec<InstalledRock>) -> (groups: Vec<RockGroup>)
    ensures
        grouped(groups.deep_view(), updates_of(rocks@)),
{
    let sorted = sorted_updates(rocks);
    let groups = grouped_by_name(sorted);
    proof {
        let found = updates_of(rocks@);
        let ordered = sorted.deep_view();
        let models = groups.deep_view();
        assert forall|i: int| 0 <= i < models.len() implies (#[trigger] models[i]).updates
            == named(found, models[i].name) by {
            assert(named(ordered, models[i].name) == named(found, models[i].name));
        }
        assert forall|name: Seq<char>| (#[trigger] named(found, name)).len() > 0 implies exists|
            i: int,
        |
            0 <= i < models.len() && (#[trigger] models[i]).name == name by {
            assert(named(ordered, name) == named(found, name));
        }
    }
    groups
}

/// The line that stands for `update`.
pub fn line_of(update: &RockUpdate) -> (line: String)
    ensures
        line@ == update_line(update@),
{
    let begun = joined(update.version.as_str(), " => ");
    joined(begun.as_str(), update.latest.as_str())
}

/// One line for each update of `updates`, in order.
pub open spec fn lines_of(updates: Seq<UpdateModel>) -> Seq<Seq<char>> {
    Seq::new(updates.len(), |i: int| update_line(updates[i]))
}

impl Outdated {
    /// The report for programs, from what the JSON writer made of the groups:
    /// its text as the one text to print, or its failure.
    pub fn porcelain_texts(json: Result<String, String>) -> (texts: Result<Vec<String>, ReportError>)
        ensures
            match json {
                Ok(text) => texts matches Ok(all) && all@ == seq![text],
                Err(message) => texts == Err::<Vec<String>, ReportError>(
                    ReportError::Json { message },
                ),
            },
    {
        match json {
            Ok(text) => {
                let mut texts: Vec<String> = Vec::new();
                texts.push(text);
                Ok(texts)
            },
            Err(message) => Err(ReportError::Json { message }),
        }
    }

    /// The texts to print for `groups`, each on its own.
    ///
    /// For people there is one tree for each group, in the order of the
    /// groups: the package's name at the root and one line for each update
    /// under it. For programs there is one text, a JSON object.
    pub fn report(&self, groups: &Vec<RockGroup>) -> (texts: Result<Vec<String>, ReportError>)
        ensures
            match texts {
                Ok(texts) => if self.porcelain {
                    texts@.len() == 1
                } else {
                    texts@.len() == groups@.len() && forall|i: int|
                        0 <= i < groups@.len() ==> (#[trigger] texts@[i])@ == tree_text(
                            groups@[i].name@,
                            lines_of(groups@[i]@.updates),
                        )
                },
                Err(error) => if self.porcelain {
                    error is Json
                } else {
                    error is Tree
                },
            },
    {
        if self.porcelain {
            return Self::porcelain_texts(json_of(groups));
        }
        let mut texts: Vec<String> = Vec::new();
        let mut i: usize = 0;
        while i < groups.len()
            invariant
                i <= groups.len(),
                !self.porcelain,
                texts@.len() == i,
                forall|k: int|
                    0 <= k < i ==> (#[trigger] texts@[k])@ == tree_text(
                        groups@[k].name@,
                        lines_of(groups@[k]@.updates),
                    ),
            decreases groups.len() - i,
        {
            let group = &groups[i];
            let mut lines: Vec<String> = Vec::new();
            let mut k: usize = 0;
            while k < group.updates.len()
                invariant
                    k <= group.updates.len(),
                    lines@.len() == k,
                    forall|n: int|
                        0 <= n < k ==> (#[trigger] lines@[n])@ == update_line(group.updates@[n]@),
                decreases group.updates.len() - k,
            {
                lines.push(line_of(&group.updates[k]));
                k += 1;
            }
            assert(lines.deep_view() =~= lines_of(group@.updates));
            match tree_of(group.name.as_str(), &lines) {
                Ok(text) => texts.push(text),
                Err(message) => return Err(ReportError::Tree { message }),
            }
            i += 1;
        }
        Ok(texts)
    }
}

} // verus!
