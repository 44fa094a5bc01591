//! The registered stamps as the settings window edits them.

use vstd::prelude::*;

use crate::settings_layout::MAX_STAMPS;
use crate::text;

verus! {

/// The longest name of a stamp, in characters.
pub const MAX_NAME_CHARS: usize = 64;

/// A registered stamp.
#[derive(Debug, PartialEq, Eq)]
pub struct StampDraft {
    pub id: String,
    pub name: String,
    pub width_px: u32,
    pub height_px: u32,
}

/// What a field for a percentage holds.
#[derive(Clone, Copy, Debug, PartialEq, Eq, Structural)]
pub enum PercentEntry {
    NotANumber,
    OutOfRange,
    InRange,
}

#[derive(Clone, Copy, Debug, PartialEq, Eq, Structural)]
pub enum StampError {
    Name,
    SizeNotANumber,
    SizeOutOfRange,
    OpacityNotANumber,
    OpacityOutOfRange,
    TooMany,
}

impl StampError {
    pub open spec fn text(self) -> Seq<char> {
        match self {
            StampError::Name => "スタンプ名は 1〜64 文字で指定してください"@,
            StampError::SizeNotANumber =>
            "スタンプの表示サイズには 1〜100 の数値を指定してください"@,
            StampError::SizeOutOfRange => "スタンプの表示サイズには 1〜100 を指定してください"@,
            StampError::OpacityNotANumber =>
            "スタンプの不透明度には 0〜100 の数値を指定してください"@,
            StampError::OpacityOutOfRange => "スタンプの不透明度には 0〜100 を指定してください"@,
            StampError::TooMany => "登録できるスタンプは最大 32 個です"@,
        }
    }

    pub fn message(self) -> (message: String)
        ensures
            message@ == self.text(),
    {
        match self {
            StampError::Name => "スタンプ名は 1〜64 文字で指定してください".to_owned(),
            StampError::SizeNotANumber =>
            "スタンプの表示サイズには 1〜100 の数値を指定してください".to_owned(),
            StampError::SizeOutOfRange =>
            "スタンプの表示サイズには 1〜100 を指定してください".to_owned(),
            StampError::OpacityNotANumber =>
            "スタンプの不透明度には 0〜100 の数値を指定してください".to_owned(),
            StampError::OpacityOutOfRange =>
            "スタンプの不透明度には 0〜100 を指定してください".to_owned(),
            StampError::TooMany => "登録できるスタンプは最大 32 個です".to_owned(),
        }
    }
}

/// A control character of Unicode.
pub open spec fn is_control(c: char) -> bool {
    c as int <= 0x1F || 0x7F <= c as int <= 0x9F
}

pub fn is_control_char(c: char) -> (control: bool)
    ensures
        control == is_control(c),
{
    let code: u32 = c as u32;
    code <= 0x1F || (0x7F <= code && code <= 0x9F)
}

/// Whether a stamp can have this name.
pub open spec fn is_stamp_name(name: Seq<char>) -> bool {
    &&& 0 < name.len() <= MAX_NAME_CHARS
    &&& forall|i: int| 0 <= i < name.len() ==> !is_control(#[trigger] name[i])
}

fn valid_name(name: &str) -> (valid: bool)
    ensures
        valid == is_stamp_name(name@),
{
    let chars = text::chars_of(name);
    if chars.len() == 0 || chars.len() > MAX_NAME_CHARS {
        return false;
    }
    for i in 0..chars.len()
        invariant
            chars@ == name@,
            forall|j: int| 0 <= j < i ==> !is_control(#[trigger] name@[j]),
    {
        if is_control_char(chars[i]) {
            assert(is_control(name@[i as int]));
            return false;
        }
    }
    true
}

/// Whether the fields for a stamp can be taken over, and what is wrong otherwise: the name is
/// looked at first, then the size, then the opacity.
pub open spec fn entry_error(
    name: Seq<char>,
    size: PercentEntry,
    opacity: PercentEntry,
) -> Option<StampError> {
    if !is_stamp_name(name) {
        Some(StampError::Name)
    } else if size == PercentEntry::NotANumber {
        Some(StampError::SizeNotANumber)
    } else if size == PercentEntry::OutOfRange {
        Some(StampError::SizeOutOfRange)
    } else if opacity == PercentEntry::NotANumber {
        Some(StampError::OpacityNotANumber)
    } else if opacity == PercentEntry::OutOfRange {
        Some(StampError::OpacityOutOfRange)
    } else {
        None
    }
}

/// The registered stamps, the selected one, and those whose files were made in this window.
#[derive(Debug)]
pub struct StampCatalog {
    pub stamps: Vec<StampDraft>,
    pub selected: Option<usize>,
    pub new_ids: Vec<String>,
}

/// A stamp that was taken out of the catalog; its file goes too where this window had made it.
#[derive(Debug)]
pub struct RemovedStamp {
    pub id: String,
    pub delete_file: bool,
}

/// The line that offers a stamp.
pub open spec fn stamp_label(stamp: StampDraft) -> Seq<char> {
    stamp.name@ + "  ("@ + text::decimal(stamp.width_px as nat) + "×"@ + text::decimal(
        stamp.height_px as nat,
    ) + ")"@
}

/// What a catalog holds.
pub struct CatalogModel {
    pub stamps: Seq<StampDraft>,
    pub selected: Option<int>,
    pub new_ids: Seq<String>,
}

impl View for StampCatalog {
    type V = CatalogModel;

    open spec fn view(&self) -> CatalogModel {
        CatalogModel {
            stamps: self.stamps@,
            selected: match self.selected {
                Some(index) => Some(index as int),
                None => None,
            },
            new_ids: self.new_ids@,
        }
    }
}

/// Index of the first occurrence of an identifier.
pub open spec fn is_first(ids: Seq<String>, id: Seq<char>, at: int) -> bool {
    &&& 0 <= at < ids.len()
    &&& ids[at]@ == id
    &&& forall|earlier: int| 0 <= earlier < at ==> (#[trigger] ids[earlier])@ != id
}

/// Identifiers without the first occurrence of one.
pub open spec fn without_first(ids: Seq<String>, id: Seq<char>) -> Seq<String> {
    if holds(ids, id) {
        ids.remove(choose|at: int| is_first(ids, id, at))
    } else {
        ids
    }
}

impl CatalogModel {
    /// The selected stamp exists.
    pub open spec fn well_formed(self) -> bool {
        self.selected matches Some(index) ==> 0 <= index < self.stamps.len()
    }

    /// With a stamp registered whose file has just been made, and selected.
    pub open spec fn added(self, stamp: StampDraft) -> Self {
        CatalogModel {
            stamps: self.stamps.push(stamp),
            selected: Some(self.stamps.len() as int),
            new_ids: self.new_ids.push(stamp.id),
        }
    }

    /// Without the selected stamp. The one that moves into its place is selected then, or the
    /// last one.
    pub open spec fn removed(self) -> Self {
        match self.selected {
            None => self,
            Some(index) => {
                let left = self.stamps.remove(index);
                CatalogModel {
                    stamps: left,
                    selected: if left.len() == 0 {
                        None
                    } else if index < left.len() {
                        Some(index)
                    } else {
                        Some(left.len() - 1)
                    },
                    new_ids: without_first(self.new_ids, self.stamps[index].id@),
                }
            },
        }
    }
}

impl StampCatalog {
    /// The selected stamp exists.
    pub open spec fn well_formed(self) -> bool {
        self@.well_formed()
    }

    pub open spec fn selection(self, wanted: Option<usize>) -> Option<usize> {
        match wanted {
            Some(index) => if index < self.stamps@.len() {
                Some(index)
            } else {
                None
            },
            None => None,
        }
    }

    /// The catalog as configured; the first stamp is selected.
    pub fn new(stamps: Vec<StampDraft>) -> (catalog: Self)
        ensures
            catalog.stamps == stamps,
            catalog.selected == if stamps@.len() > 0 {
                Some(0usize)
            } else {
                None
            },
            catalog.new_ids@.len() == 0,
            catalog.well_formed(),
    {
        let selected: Option<usize> = if stamps.len() > 0 {
            Some(0)
        } else {
            None
        };
        StampCatalog { stamps, selected, new_ids: Vec::new() }
    }

    /// The lines of the list.
    pub fn labels(&self) -> (labels: Vec<String>)
        ensures
            labels@.len() == self.stamps@.len(),
            forall|i: int|
                0 <= i < labels@.len() ==> (#[trigger] labels@[i])@ == stamp_label(self.stamps@[i]),
    {
        let mut labels: Vec<String> = Vec::new();
        for i in 0..self.stamps.len()
            invariant
                labels@.len() == i,
                forall|j: int|
                    0 <= j < i ==> (#[trigger] labels@[j])@ == stamp_label(self.stamps@[j]),
        {
            let stamp = &self.stamps[i];
            let mut line = stamp.name.clone();
            line.append("  (");
            text::push_decimal(&mut line, stamp.width_px as u64);
            line.append("×");
            text::push_decimal(&mut line, stamp.height_px as u64);
            line.append(")");
            labels.push(line);
        }
        labels
    }

    /// Selects a stamp, or none where it does not exist.
    pub fn select(&mut self, wanted: Option<usize>)
        ensures
            *final(self) == (StampCatalog { selected: old(self).selection(wanted), ..*old(self) }),
            final(self).well_formed(),
    {
        self.selected = match wanted {
            Some(index) => if index < self.stamps.len() {
                Some(index)
            } else {
                None
            },
            None => None,
        };
    }

    /// Takes the fields over into the selected stamp, if there is one.
    pub fn commit_editor(&mut self, name: &str, size: PercentEntry, opacity: PercentEntry)
        -> (result: Result<(), StampError>)
        requires
            old(self).well_formed(),
        ensures
            final(self).well_formed(),
            final(self).selected == old(self).selected,
            final(self).new_ids == old(self).new_ids,
            old(self).selected is None ==> result is Ok && *final(self) == *old(self),
            old(self).selected matches Some(index) ==> match entry_error(
                text::trimmed(name@),
                size,
                opacity,
            ) {
                Some(error) => result == Err::<(), StampError>(error) && *final(self) == *old(self),
                None => {
                    &&& result is Ok
                    &&& final(self).stamps@ == old(self).stamps@.update(
                        index as int,
                        StampDraft {
                            name: final(self).stamps@[index as int].name,
                            ..old(self).stamps@[index as int]
                        },
                    )
                    &&& final(self).stamps@[index as int].name@ == text::trimmed(name@)
                },
            },
    {
        let index: usize = match self.selected {
            Some(index) => index,
            None => {
                return Ok(());
            },
        };
        let inner = text::trim(name);
        if !valid_name(inner) {
            return Err(StampError::Name);
        }
        match size {
            PercentEntry::NotANumber => {
                return Err(StampError::SizeNotANumber);
            },
            PercentEntry::OutOfRange => {
                return Err(StampError::SizeOutOfRange);
            },
            PercentEntry::InRange => {},
        }
        match opacity {
            PercentEntry::NotANumber => {
                return Err(StampError::OpacityNotANumber);
            },
            PercentEntry::OutOfRange => {
                return Err(StampError::OpacityOutOfRange);
            },
            PercentEntry::InRange => {},
        }
        let mut stamp = self.stamps.remove(index);
        stamp.name = inner.to_owned();
        self.stamps.insert(index, stamp);
        assert(self.stamps@ =~= old(self).stamps@.update(
            index as int,
            StampDraft {
                name: self.stamps@[index as int].name,
                ..old(self).stamps@[index as int]
            },
        ));
        Ok(())
    }

    /// Whether another stamp can be registered.
    pub fn check_room(&self) -> (result: Result<(), StampError>)
        ensures
            result is Ok == (self.stamps@.len() < MAX_STAMPS),
            result matches Err(error) ==> error == StampError::TooMany,
    {
        if self.stamps.len() >= MAX_STAMPS {
            return Err(StampError::TooMany);
        }
        Ok(())
    }

    /// Registers a stamp whose file has just been made, and selects it.
    pub fn add(&mut self, stamp: StampDraft)
        ensures
            final(self)@ == old(self)@.added(stamp),
            final(self).well_formed(),
    {
        let at: usize = self.stamps.len();
        self.new_ids.push(stamp.id.clone());
        self.stamps.push(stamp);
        self.selected = Some(at);
    }

    /// Takes the selected stamp out.
    pub fn remove(&mut self) -> (removed: Option<RemovedStamp>)
        requires
            old(self).well_formed(),
        ensures
            final(self)@ == old(self)@.removed(),
            final(self).well_formed(),
            removed is Some == old(self).selected is Some,
            removed matches Some(removed) ==> {
                &&& removed.id == old(self).stamps@[old(self).selected->0 as int].id
                &&& removed.delete_file == holds(old(self).new_ids@, removed.id@)
            },
    {
        let index: usize = match self.selected {
            Some(index) => index,
            None => {
                return None;
            },
        };
        let stamp = self.stamps.remove(index);
        let id = stamp.id;
        let delete_file = match position(&self.new_ids, &id) {
            Some(at) => {
                proof {
                    lemma_one_first(self.new_ids@, id@, at as int);
                }
                self.new_ids.remove(at);
                true
            },
            None => false,
        };
        self.selected = if self.stamps.len() == 0 {
            None
        } else if index < self.stamps.len() {
            Some(index)
        } else {
            Some(self.stamps.len() - 1)
        };
        assert(self@.stamps =~= old(self)@.removed().stamps);
        assert(self@.new_ids =~= old(self)@.removed().new_ids);
        Some(RemovedStamp { id, delete_file })
    }

    /// The stamps whose files are deleted when the window closes: those that it made, unless they
    /// were saved.
    pub fn abandoned(self, saved: bool) -> (ids: Vec<String>)
        ensures
            ids@ == if saved {
                Seq::empty()
            } else {
                self.new_ids@
            },
    {
        if saved {
            let ids: Vec<String> = Vec::new();
            assert(ids@ =~= Seq::empty());
            ids
        } else {
            self.new_ids
        }
    }
}

/// Whether an identifier is among others.
pub open spec fn holds(ids: Seq<String>, id: Seq<char>) -> bool {
    exists|i: int| 0 <= i < ids.len() && (#[trigger] ids[i])@ == id
}

fn position(ids: &[String], id: &String) -> (found: Option<usize>)
    ensures
        match found {
            Some(at) => is_first(ids@, id@, at as int),
            None => !holds(ids@, id@),
        },
{
    for i in 0..ids.len()
        invariant
            forall|earlier: int| 0 <= earlier < i ==> (#[trigger] ids@[earlier])@ != id@,
    {
        if ids[i] == *id {
            return Some(i);
        }
    }
    None
}

/// The length up to the first zero, or of the whole buffer: where a name in it ends.
pub fn until_nul(buffer: &[u16]) -> (length: usize)
    ensures
        length <= buffer@.len(),
        forall|i: int| 0 <= i < length ==> buffer@[i] != 0,
        length < buffer@.len() ==> buffer@[length as int] == 0,
{
    for i in 0..buffer.len()
        invariant
            forall|j: int| 0 <= j < i ==> buffer@[j] != 0,
    {
        if buffer[i] == 0 {
            return i;
        }
    }
    buffer.len()
}

proof fn lemma_one_first(ids: Seq<String>, id: Seq<char>, at: int)
    requires
        is_first(ids, id, at),
    ensures
        holds(ids, id),
        without_first(ids, id) == ids.remove(at),
{
    let chosen = choose|at: int| is_first(ids, id, at);
    assert(is_first(ids, id, chosen));
    assert(ids[at]@ == id && ids[chosen]@ == id);
    assert(chosen == at);
}

/// Taking a stamp out leaves the others as they are, in their order, and one of them selected
/// where there are any.
pub proof fn law_removing_keeps_the_others(catalog: CatalogModel, other: int)
    requires
        catalog.well_formed(),
        catalog.selected is Some,
        0 <= other < catalog.stamps.len(),
        other != catalog.selected->0,
    ensures
        ({
            let left = catalog.removed();
            &&& left.stamps.len() == catalog.stamps.len() - 1
            &&& left.stamps[if other < catalog.selected->0 {
                other
            } else {
                other - 1
            }] == catalog.stamps[other]
            &&& left.well_formed()
            &&& left.selected is Some
        }),
{
}

/// A stamp with an identifier of its own that is added and taken out again leaves the stamps and
/// the files to look after as they were.
pub proof fn law_adding_and_removing_cancel(catalog: CatalogModel, stamp: StampDraft)
    requires
        !holds(catalog.new_ids, stamp.id@),
    ensures
        catalog.added(stamp).removed().stamps == catalog.stamps,
        catalog.added(stamp).removed().new_ids == catalog.new_ids,
        holds(catalog.added(stamp).new_ids, stamp.id@),
{
    let more = catalog.added(stamp);
    let at = catalog.new_ids.len() as int;
    assert(more.stamps.remove(catalog.stamps.len() as int) =~= catalog.stamps);
    assert(more.new_ids[at] == stamp.id);
    assert forall|earlier: int| 0 <= earlier < at implies (#[trigger] more.new_ids[earlier])@
        != stamp.id@ by {
        assert(catalog.new_ids[earlier] == more.new_ids[earlier]);
    }
    lemma_one_first(more.new_ids, stamp.id@, at);
    assert(more.new_ids.remove(at) =~= catalog.new_ids);
}

/// A stamp's fields are taken over exactly where its name has one to sixty-four characters, none of
/// them a control character, and both percentages are in range; else the first field that is wrong
/// is told.
pub proof fn law_the_first_wrong_field_is_told(
    name: Seq<char>,
    size: PercentEntry,
    opacity: PercentEntry,
)
    ensures
        ({
            let named = 1 <= name.len() <= 64 && forall|i: int|
                0 <= i < name.len() ==> 0x20 <= #[trigger] name[i] as int && !(0x7F
                    <= name[i] as int <= 0x9F);
            let error = entry_error(name, size, opacity);
            &&& error is None <==> named && size == PercentEntry::InRange && opacity
                == PercentEntry::InRange
            &&& error == Some(StampError::Name) <==> !named
            &&& error == Some(StampError::SizeNotANumber) <==> named && size
                == PercentEntry::NotANumber
            &&& error == Some(StampError::SizeOutOfRange) <==> named && size
                == PercentEntry::OutOfRange
            &&& error == Some(StampError::OpacityNotANumber) <==> named && size
                == PercentEntry::InRange && opacity == PercentEntry::NotANumber
            &&& error == Some(StampError::OpacityOutOfRange) <==> named && size
                == PercentEntry::InRange && opacity == PercentEntry::OutOfRange
        }),
{
    let named = 1 <= name.len() <= 64 && forall|i: int|
        0 <= i < name.len() ==> 0x20 <= #[trigger] name[i] as int && !(0x7F <= name[i] as int
            <= 0x9F);
    assert(is_stamp_name(name) == named) by {
        if is_stamp_name(name) {
            assert forall|i: int| 0 <= i < name.len() implies 0x20 <= #[trigger] name[i] as int
                && !(0x7F <= name[i] as int <= 0x9F) by {
                assert(!is_control(name[i]));
            }
        }
    }
}

/// A stamp that is added comes last and is selected, and its file is looked after.
pub proof fn law_an_added_stamp_is_selected(catalog: CatalogModel, stamp: StampDraft)
    ensures
        ({
            let after = catalog.added(stamp);
            &&& after.stamps.len() == catalog.stamps.len() + 1
            &&& after.stamps.last() == stamp
            &&& forall|i: int|
                0 <= i < catalog.stamps.len() ==> #[trigger] after.stamps[i] == catalog.stamps[i]
            &&& after.selected == Some(catalog.stamps.len() as int)
            &&& after.new_ids.last() == stamp.id
            &&& after.new_ids.drop_last() == catalog.new_ids
        }),
{
    assert(catalog.added(stamp).new_ids.drop_last() =~= catalog.new_ids);
}

/// A stamp can be selected exactly where it exists.
pub proof fn law_only_an_existing_stamp_is_selected(catalog: StampCatalog, index: usize)
    ensures
        catalog.selection(None) is None,
        index < catalog.stamps@.len() ==> catalog.selection(Some(index)) == Some(index),
        index >= catalog.stamps@.len() ==> catalog.selection(Some(index)) is None,
{
}

/// A file is deleted with its stamp exactly where this window had made it.
pub proof fn law_only_own_files_are_deleted(ids: Seq<String>, id: Seq<char>)
    ensures
        holds(ids, id) <==> exists|i: int| 0 <= i < ids.len() && (#[trigger] ids[i])@ == id,
{
}

/// Where a stamp was taken out, the one after it is selected, else the last one, if any is left. Its
/// own file is looked after no more, and every other's still is.
pub proof fn law_the_next_stamp_is_selected(catalog: CatalogModel, other: String)
    requires
        catalog.well_formed(),
    ensures
        catalog.selected is None ==> catalog.removed() == catalog,
        catalog.selected matches Some(index) ==> {
            let left = catalog.removed();
            let count = catalog.stamps.len();
            &&& left.selected == if count == 1 {
                None
            } else if index == count - 1 {
                Some(index - 1)
            } else {
                Some(index)
            }
            &&& other@ != catalog.stamps[index].id@ ==> (holds(left.new_ids, other@) <==> holds(
                catalog.new_ids,
                other@,
            ))
            &&& !holds(catalog.new_ids, catalog.stamps[index].id@) ==> left.new_ids
                == catalog.new_ids
            &&& holds(catalog.new_ids, catalog.stamps[index].id@) ==> left.new_ids.len() + 1
                == catalog.new_ids.len()
        },
{
    if let Some(index) = catalog.selected {
        let id = catalog.stamps[index].id@;
        let before = catalog.new_ids;
        if holds(before, id) {
            lemma_first_exists(before, id, 0);
            let at = choose|at: int| is_first(before, id, at);
            assert(is_first(before, id, at));
            let after = before.remove(at);
            assert(without_first(before, id) == after);
            if other@ != id {
                if holds(before, other@) {
                    let i = choose|i: int| 0 <= i < before.len() && (#[trigger] before[i])@
                        == other@;
                    assert(i != at);
                    if i < at {
                        assert(after[i] == before[i]);
                    } else {
                        assert(after[i - 1] == before[i]);
                    }
                }
                if holds(after, other@) {
                    let i = choose|i: int| 0 <= i < after.len() && (#[trigger] after[i])@ == other@;
                    if i < at {
                        assert(before[i] == after[i]);
                    } else {
                        assert(before[i + 1] == after[i]);
                    }
                }
            }
        }
    }
}

proof fn lemma_first_exists(ids: Seq<String>, id: Seq<char>, from: int)
    requires
        0 <= from <= ids.len(),
        holds(ids, id),
        forall|i: int| 0 <= i < from ==> (#[trigger] ids[i])@ != id,
    ensures
        exists|at: int| is_first(ids, id, at),
    decreases ids.len() - from,
{
    if from < ids.len() && ids[from]@ != id {
        lemma_first_exists(ids, id, from + 1);
    } else if from < ids.len() {
        assert(is_first(ids, id, from));
    }
}

} // verus!
