//! The settings picker: a fixed list of settings whose values are toggled
//! or cycled in place, and what changing them writes to the settings file.
use vstd::prelude::*;
use crate::listnav::{
    clamped_down, clamped_up, decimal, decimal_chars, max_visible, max_visible_rows, paged_down,
    paged_up, row_prefix, views, window_end, window_start,
};
use crate::text::{chars_of, extend_chars, owned, push_str_chars, string_from_chars};

verus! {

/// The values the settings picker edits.
#[derive(Clone, Copy, Debug, PartialEq, Eq)]
pub struct SettingsPickerSelection {
    pub auto_compact: bool,
    pub auto_resize_images: bool,
    pub block_images: bool,
    pub editor_padding_x: usize,
    pub autocomplete_max_visible: usize,
}

/// The rows of the settings picker.
#[derive(Clone, Copy, Debug, PartialEq, Eq)]
pub enum SettingsPickerItem {
    AutoCompact,
    AutoResizeImages,
    BlockImages,
    EditorPadding,
    AutocompleteMaxVisible,
}

/// The number of rows.
pub const SETTINGS_ITEM_COUNT: usize = 5;

/// The row at index `i`.
pub open spec fn item_at(i: nat) -> SettingsPickerItem {
    if i == 0 {
        SettingsPickerItem::AutoCompact
    } else if i == 1 {
        SettingsPickerItem::AutoResizeImages
    } else if i == 2 {
        SettingsPickerItem::BlockImages
    } else if i == 3 {
        SettingsPickerItem::EditorPadding
    } else {
        SettingsPickerItem::AutocompleteMaxVisible
    }
}

/// The row at index `i`.
pub fn settings_item(i: usize) -> (r: SettingsPickerItem)
    ensures
        r == item_at(i as nat),
{
    if i == 0 {
        SettingsPickerItem::AutoCompact
    } else if i == 1 {
        SettingsPickerItem::AutoResizeImages
    } else if i == 2 {
        SettingsPickerItem::BlockImages
    } else if i == 3 {
        SettingsPickerItem::EditorPadding
    } else {
        SettingsPickerItem::AutocompleteMaxVisible
    }
}

/// The paddings the editor can have.
pub open spec fn padding_values() -> Seq<usize> {
    seq![0usize, 1, 2, 3]
}

/// The autocomplete list sizes that can be chosen.
pub open spec fn autocomplete_values() -> Seq<usize> {
    seq![3usize, 5, 7, 10, 15, 20]
}

/// Position of the first `v` in `values`.
pub open spec fn position_in(values: Seq<usize>, v: usize) -> Option<nat>
    decreases values.len(),
{
    if values.len() == 0 {
        None
    } else if values[0] == v {
        Some(0)
    } else {
        match position_in(values.drop_first(), v) {
            Some(k) => Some(k + 1),
            None => None,
        }
    }
}

/// The value after (`delta >= 0`) or before (`delta < 0`) `current` in
/// `values`, wrapping around; the first value when `current` is not one of
/// them, and `current` itself when there are none.
pub open spec fn cycled(current: usize, values: Seq<usize>, delta: int) -> usize {
    match position_in(values, current) {
        None => if values.len() > 0 {
            values[0]
        } else {
            current
        },
        Some(k) => {
            let next: int = if delta < 0 {
                if k == 0 {
                    values.len() - 1
                } else {
                    k - 1
                }
            } else {
                ((k + 1) % values.len()) as int
            };
            values[next]
        },
    }
}

/// A position found is a position of the value.
proof fn lemma_position_in_found(values: Seq<usize>, v: usize)
    ensures
        position_in(values, v) matches Some(k) ==> k < values.len() && values[k as int] == v,
    decreases values.len(),
{
    if values.len() > 0 {
        lemma_position_in_found(values.drop_first(), v);
    }
}

/// Steps `current` through `values` (see `cycled`).
pub fn cycle_usize_value(current: usize, values: &[usize], delta: isize) -> (r: usize)
    ensures
        r == cycled(current, values@, delta as int),
{
    let mut i: usize = 0;
    assert(values@.skip(0) =~= values@);
    while i < values.len()
        invariant
            0 <= i <= values@.len(),
            position_in(values@, current) == (match position_in(values@.skip(i as int), current) {
                Some(k) => Some((k + i) as nat),
                None => None,
            }),
        decreases values@.len() - i,
    {
        assert(values@.skip(i as int)[0] == values@[i as int]);
        if values[i] == current {
            proof {
                lemma_position_in_found(values@, current);
            }
            let next = if delta < 0 {
                if i == 0 {
                    values.len() - 1
                } else {
                    i - 1
                }
            } else {
                (i + 1) % values.len()
            };
            return values[next];
        }
        assert(values@.skip(i as int).drop_first() =~= values@.skip(i + 1));
        i = i + 1;
    }
    if values.len() > 0 {
        values[0]
    } else {
        current
    }
}

/// The selection with the value of `item` stepped by `delta`: switches are
/// flipped, numbers cycle through their choices.
pub open spec fn selection_stepped(s: SettingsPickerSelection, item: SettingsPickerItem, delta: int) -> SettingsPickerSelection {
    match item {
        SettingsPickerItem::AutoCompact => SettingsPickerSelection { auto_compact: !s.auto_compact, ..s },
        SettingsPickerItem::AutoResizeImages => SettingsPickerSelection {
            auto_resize_images: !s.auto_resize_images,
            ..s
        },
        SettingsPickerItem::BlockImages => SettingsPickerSelection { block_images: !s.block_images, ..s },
        SettingsPickerItem::EditorPadding => SettingsPickerSelection {
            editor_padding_x: cycled(s.editor_padding_x, padding_values(), delta),
            ..s
        },
        SettingsPickerItem::AutocompleteMaxVisible => SettingsPickerSelection {
            autocomplete_max_visible: cycled(s.autocomplete_max_visible, autocomplete_values(), delta),
            ..s
        },
    }
}

/// What a key press asks of the settings picker.
#[derive(Clone, Copy, Debug, PartialEq, Eq)]
pub enum SettingsKey {
    Cancel,
    Up,
    Down,
    PageUp,
    PageDown,
    /// Step the selected value back.
    Left,
    /// Step the selected value forward (also what confirming does).
    Right,
    Other,
}

/// What handling one key produced.
#[derive(Clone, Copy, Debug, PartialEq, Eq)]
pub enum SettingsOutcome {
    Continue,
    /// The picker closed with these values.
    Closed(SettingsPickerSelection),
}

/// The abstract state of the settings picker.
pub struct SettingsPickerState {
    pub selection: SettingsPickerSelection,
    pub selected: nat,
    pub viewport: Option<(usize, usize)>,
}

/// The settings picker.
pub struct SettingsPicker {
    selection: SettingsPickerSelection,
    selected_index: usize,
    viewport_size: Option<(usize, usize)>,
}

impl View for SettingsPicker {
    type V = SettingsPickerState;

    closed spec fn view(&self) -> SettingsPickerState {
        SettingsPickerState {
            selection: self.selection,
            selected: self.selected_index as nat,
            viewport: self.viewport_size,
        }
    }
}

impl SettingsPickerState {
    /// The selection names a row.
    pub open spec fn wf(&self) -> bool {
        self.selected < 5
    }

    /// Rows shown per page.
    pub open spec fn page(&self) -> nat {
        max_visible_rows(self.viewport, 7, 5)
    }

    /// The state and outcome after one key.
    pub open spec fn key_step(&self, key: SettingsKey) -> (SettingsPickerState, SettingsOutcome) {
        match key {
            SettingsKey::Cancel => (*self, SettingsOutcome::Closed(self.selection)),
            SettingsKey::Up => (SettingsPickerState { selected: clamped_up(self.selected), ..*self }, SettingsOutcome::Continue),
            SettingsKey::Down => (
                SettingsPickerState { selected: clamped_down(self.selected, 5), ..*self },
                SettingsOutcome::Continue,
            ),
            SettingsKey::PageUp => (
                SettingsPickerState { selected: paged_up(self.selected, self.page()), ..*self },
                SettingsOutcome::Continue,
            ),
            SettingsKey::PageDown => (
                SettingsPickerState { selected: paged_down(self.selected, self.page(), 5), ..*self },
                SettingsOutcome::Continue,
            ),
            SettingsKey::Left => (
                SettingsPickerState {
                    selection: selection_stepped(self.selection, item_at(self.selected), -1),
                    ..*self
                },
                SettingsOutcome::Continue,
            ),
            SettingsKey::Right => (
                SettingsPickerState {
                    selection: selection_stepped(self.selection, item_at(self.selected), 1),
                    ..*self
                },
                SettingsOutcome::Continue,
            ),
            SettingsKey::Other => (*self, SettingsOutcome::Continue),
        }
    }
}

impl SettingsPicker {
    /// A picker over `selection` with the first row selected.
    pub fn new(selection: SettingsPickerSelection) -> (r: Self)
        ensures
            r@.wf(),
            r@ == (SettingsPickerState { selection, selected: 0, viewport: None }),
    {
        SettingsPicker { selection, selected_index: 0, viewport_size: None }
    }

    /// Records the terminal size the picker is drawn in.
    pub fn set_viewport_size(&mut self, width: usize, height: usize)
        ensures
            final(self)@ == (SettingsPickerState { viewport: Some((width, height)), ..old(self)@ }),
    {
        self.viewport_size = Some((width, height));
    }

    /// The values as they stand.
    pub fn selection(&self) -> (r: SettingsPickerSelection)
        ensures
            r == self@.selection,
    {
        self.selection
    }

    /// The selected row.
    pub fn current_item(&self) -> (r: SettingsPickerItem)
        ensures
            r == item_at(self@.selected),
    {
        settings_item(self.selected_index)
    }

    /// Steps the value of the selected row.
    fn cycle_selected_value(&mut self, delta: isize)
        ensures
            final(self)@ == (SettingsPickerState {
                selection: selection_stepped(old(self)@.selection, item_at(old(self)@.selected), delta as int),
                ..old(self)@
            }),
    {
        match settings_item(self.selected_index) {
            SettingsPickerItem::AutoCompact => {
                self.selection.auto_compact = !self.selection.auto_compact;
            },
            SettingsPickerItem::AutoResizeImages => {
                self.selection.auto_resize_images = !self.selection.auto_resize_images;
            },
            SettingsPickerItem::BlockImages => {
                self.selection.block_images = !self.selection.block_images;
            },
            SettingsPickerItem::EditorPadding => {
                let values: [usize; 4] = [0, 1, 2, 3];
                assert(values@ =~= padding_values());
                self.selection.editor_padding_x = cycle_usize_value(
                    self.selection.editor_padding_x,
                    &values,
                    delta,
                );
            },
            SettingsPickerItem::AutocompleteMaxVisible => {
                let values: [usize; 6] = [3, 5, 7, 10, 15, 20];
                assert(values@ =~= autocomplete_values());
                self.selection.autocomplete_max_visible = cycle_usize_value(
                    self.selection.autocomplete_max_visible,
                    &values,
                    delta,
                );
            },
        }
    }

    /// Handles one key (see `SettingsPickerState::key_step`).
    pub fn handle_key(&mut self, key: SettingsKey) -> (r: SettingsOutcome)
        requires
            old(self)@.wf(),
        ensures
            (final(self)@, r) == old(self)@.key_step(key),
            final(self)@.wf(),
    {
        match key {
            SettingsKey::Cancel => SettingsOutcome::Closed(self.selection),
            SettingsKey::Up => {
                if self.selected_index > 0 {
                    self.selected_index = self.selected_index - 1;
                }
                SettingsOutcome::Continue
            },
            SettingsKey::Down => {
                if self.selected_index + 1 < 5 {
                    self.selected_index = self.selected_index + 1;
                } else {
                    self.selected_index = 4;
                }
                SettingsOutcome::Continue
            },
            SettingsKey::PageUp => {
                let page = max_visible(self.viewport_size, 7, 5);
                self.selected_index = crate::listnav::page_up(self.selected_index, page);
                SettingsOutcome::Continue
            },
            SettingsKey::PageDown => {
                let page = max_visible(self.viewport_size, 7, 5);
                if page >= 5 {
                    self.selected_index = 4;
                } else {
                    self.selected_index = crate::listnav::page_down(self.selected_index, page, 5);
                }
                SettingsOutcome::Continue
            },
            SettingsKey::Left => {
                self.cycle_selected_value(-1);
                SettingsOutcome::Continue
            },
            SettingsKey::Right => {
                self.cycle_selected_value(1);
                SettingsOutcome::Continue
            },
            SettingsKey::Other => SettingsOutcome::Continue,
        }
    }
}

/// `on` or `off`.
pub open spec fn on_off(enabled: bool) -> Seq<char> {
    if enabled {
        "on"@
    } else {
        "off"@
    }
}

/// Names a switch's state.
pub fn on_off_label(enabled: bool) -> (r: String)
    ensures
        r@ == on_off(enabled),
{
    if enabled {
        owned("on")
    } else {
        owned("off")
    }
}

/// The name of a row.
pub open spec fn item_label(item: SettingsPickerItem) -> Seq<char> {
    match item {
        SettingsPickerItem::AutoCompact => "Auto-compact"@,
        SettingsPickerItem::AutoResizeImages => "Auto-resize images"@,
        SettingsPickerItem::BlockImages => "Block images"@,
        SettingsPickerItem::EditorPadding => "Editor padding"@,
        SettingsPickerItem::AutocompleteMaxVisible => "Autocomplete max items"@,
    }
}

/// The name of a row.
pub fn settings_item_label(item: SettingsPickerItem) -> (r: &'static str)
    ensures
        r@ == item_label(item),
{
    match item {
        SettingsPickerItem::AutoCompact => "Auto-compact",
        SettingsPickerItem::AutoResizeImages => "Auto-resize images",
        SettingsPickerItem::BlockImages => "Block images",
        SettingsPickerItem::EditorPadding => "Editor padding",
        SettingsPickerItem::AutocompleteMaxVisible => "Autocomplete max items",
    }
}

/// What a row controls.
pub open spec fn item_description(item: SettingsPickerItem) -> Seq<char> {
    match item {
        SettingsPickerItem::AutoCompact => "Automatically compact the session context when it gets too large"@,
        SettingsPickerItem::AutoResizeImages => "Resize large images to 2000x2000 before sending them to models"@,
        SettingsPickerItem::BlockImages => "Prevent images from being sent to the selected model"@,
        SettingsPickerItem::EditorPadding => "Horizontal padding for the interactive editor (0-3 columns)"@,
        SettingsPickerItem::AutocompleteMaxVisible => "Maximum visible autocomplete items (3-20)"@,
    }
}

/// What a row controls.
pub fn settings_item_description(item: SettingsPickerItem) -> (r: &'static str)
    ensures
        r@ == item_description(item),
{
    match item {
        SettingsPickerItem::AutoCompact => "Automatically compact the session context when it gets too large",
        SettingsPickerItem::AutoResizeImages => "Resize large images to 2000x2000 before sending them to models",
        SettingsPickerItem::BlockImages => "Prevent images from being sent to the selected model",
        SettingsPickerItem::EditorPadding => "Horizontal padding for the interactive editor (0-3 columns)",
        SettingsPickerItem::AutocompleteMaxVisible => "Maximum visible autocomplete items (3-20)",
    }
}

/// The value shown on a row.
pub open spec fn item_value(s: SettingsPickerSelection, item: SettingsPickerItem) -> Seq<char> {
    match item {
        SettingsPickerItem::AutoCompact => on_off(s.auto_compact),
        SettingsPickerItem::AutoResizeImages => on_off(s.auto_resize_images),
        SettingsPickerItem::BlockImages => on_off(s.block_images),
        SettingsPickerItem::EditorPadding => decimal(s.editor_padding_x as nat),
        SettingsPickerItem::AutocompleteMaxVisible => decimal(s.autocomplete_max_visible as nat),
    }
}

/// `s` followed by spaces up to `width` characters.
pub open spec fn padded(s: Seq<char>, width: nat) -> Seq<char> {
    if s.len() >= width {
        s
    } else {
        s + Seq::new((width - s.len()) as nat, |i: int| ' ')
    }
}

/// Appends `s` padded with spaces to `width` characters.
fn push_padded(out: &mut Vec<char>, s: &str, width: usize)
    ensures
        final(out)@ == old(out)@ + padded(s@, width as nat),
{
    let c = chars_of(s);
    let ghost start = out@;
    extend_chars(out, &c);
    if c.len() < width {
        let mut i: usize = c.len();
        while i < width
            invariant
                c@ == s@,
                c@.len() <= i <= width,
                out@ == start + c@ + Seq::new((i - c@.len()) as nat, |k: int| ' '),
            decreases width - i,
        {
            out.push(' ');
            i = i + 1;
            assert(out@ =~= start + c@ + Seq::new((i - c@.len()) as nat, |k: int| ' '));
        }
    }
    assert(out@ =~= start + padded(s@, width as nat));
}

impl SettingsPickerState {
    /// The line of row `i`.
    pub open spec fn row_line(&self, i: nat) -> Seq<char> {
        row_prefix(i == self.selected) + padded(item_label(item_at(i)), 24) + seq![' '] + item_value(
            self.selection,
            item_at(i),
        )
    }

    /// The lines listing the rows, before truncation to the terminal width.
    pub open spec fn item_rows(&self) -> Seq<Seq<char>> {
        let start = window_start(self.selected, 5, self.page());
        let end = window_end(self.selected, 5, self.page());
        Seq::new((end - start) as nat, |k: int| self.row_line((start + k) as nat))
    }
}

impl SettingsPicker {
    /// The line of row `i`.
    fn row_text(&self, i: usize) -> (r: String)
        ensures
            r@ == self@.row_line(i as nat),
    {
        let mut v: Vec<char> = Vec::new();
        if i == self.selected_index {
            v.push('→');
            v.push(' ');
        } else {
            v.push(' ');
            v.push(' ');
        }
        let item = settings_item(i);
        push_padded(&mut v, settings_item_label(item), 24);
        v.push(' ');
        match item {
            SettingsPickerItem::AutoCompact => push_str_chars(&mut v, on_off_label(self.selection.auto_compact).as_str()),
            SettingsPickerItem::AutoResizeImages => push_str_chars(
                &mut v,
                on_off_label(self.selection.auto_resize_images).as_str(),
            ),
            SettingsPickerItem::BlockImages => push_str_chars(&mut v, on_off_label(self.selection.block_images).as_str()),
            SettingsPickerItem::EditorPadding => {
                let d = decimal_chars(self.selection.editor_padding_x as u64);
                extend_chars(&mut v, &d);
            },
            SettingsPickerItem::AutocompleteMaxVisible => {
                let d = decimal_chars(self.selection.autocomplete_max_visible as u64);
                extend_chars(&mut v, &d);
            },
        }
        string_from_chars(&v)
    }

    /// The lines listing the rows, before truncation to the terminal width.
    pub fn render_items(&self) -> (r: Vec<String>)
        requires
            self@.wf(),
        ensures
            views(r@) == self@.item_rows(),
    {
        let page = max_visible(self.viewport_size, 7, 5);
        let (start, end) = crate::listnav::visible_window(self.selected_index, 5, page);
        let mut lines: Vec<String> = Vec::new();
        let mut i: usize = start;
        while i < end
            invariant
                start <= i <= end,
                end <= 5,
                start == window_start(self@.selected, 5, self@.page()),
                end == window_end(self@.selected, 5, self@.page()),
                lines@.len() == i - start,
                forall|k: int| 0 <= k < i - start ==> (#[trigger] lines@[k])@ == self@.row_line((start + k) as nat),
            decreases end - i,
        {
            lines.push(self.row_text(i));
            i = i + 1;
        }
        assert(views(lines@) =~= self@.item_rows());
        lines
    }

    /// The title and the line under it.
    pub fn header_lines(&self) -> (r: Vec<String>)
        ensures
            views(r@) == seq!["Settings"@, "Saved to global settings when available. Escape closes."@],
    {
        let mut r: Vec<String> = Vec::new();
        r.push(owned("Settings"));
        r.push(owned("Saved to global settings when available. Escape closes."));
        assert(views(r@) =~= seq!["Settings"@, "Saved to global settings when available. Escape closes."@]);
        r
    }
}

/// The status line after the settings picker closed: whether anything
/// changed, and whether it was saved or only applies to this session.
pub open spec fn settings_status(changed: bool, can_persist: bool) -> Seq<char> {
    if changed {
        if can_persist {
            "Updated settings"@
        } else {
            "Updated session settings"@
        }
    } else {
        "Settings unchanged"@
    }
}

/// Builds `settings_status` for a picker that started from `previous`.
pub fn settings_status_message(
    previous: SettingsPickerSelection,
    selection: SettingsPickerSelection,
    can_persist: bool,
) -> (r: String)
    ensures
        r@ == settings_status(previous != selection, can_persist),
{
    let changed = !(previous.auto_compact == selection.auto_compact && previous.auto_resize_images
        == selection.auto_resize_images && previous.block_images == selection.block_images
        && previous.editor_padding_x == selection.editor_padding_x && previous.autocomplete_max_visible
        == selection.autocomplete_max_visible);
    if changed {
        if can_persist {
            owned("Updated settings")
        } else {
            owned("Updated session settings")
        }
    } else {
        owned("Settings unchanged")
    }
}

/// A value written to the settings file.
#[derive(Clone, Copy, Debug, PartialEq, Eq)]
pub enum SettingValue {
    Bool(bool),
    Number(usize),
}

/// One entry the settings file gets: `key` inside the object `parent` (at
/// the top level when there is none).
#[derive(Clone, Debug, PartialEq, Eq)]
pub struct SettingsChange {
    pub parent: Option<String>,
    pub key: String,
    pub value: SettingValue,
}

/// The abstract value of a change.
pub open spec fn change_view(c: SettingsChange) -> (Option<Seq<char>>, Seq<char>, SettingValue) {
    (
        match c.parent {
            Some(p) => Some(p@),
            None => None,
        },
        c.key@,
        c.value,
    )
}

/// The entries to write when the values went from `previous` to `next`:
/// one per changed value, in the order of the rows.
pub open spec fn settings_changes(previous: SettingsPickerSelection, next: SettingsPickerSelection) -> Seq<
    (Option<Seq<char>>, Seq<char>, SettingValue),
> {
    (if next.auto_compact != previous.auto_compact {
        seq![(Some("compaction"@), "enabled"@, SettingValue::Bool(next.auto_compact))]
    } else {
        seq![]
    }) + (if next.auto_resize_images != previous.auto_resize_images {
        seq![(Some("images"@), "autoResize"@, SettingValue::Bool(next.auto_resize_images))]
    } else {
        seq![]
    }) + (if next.block_images != previous.block_images {
        seq![(Some("images"@), "blockImages"@, SettingValue::Bool(next.block_images))]
    } else {
        seq![]
    }) + (if next.editor_padding_x != previous.editor_padding_x {
        seq![(None, "editorPaddingX"@, SettingValue::Number(next.editor_padding_x))]
    } else {
        seq![]
    }) + (if next.autocomplete_max_visible != previous.autocomplete_max_visible {
        seq![(None, "autocompleteMaxVisible"@, SettingValue::Number(next.autocomplete_max_visible))]
    } else {
        seq![]
    })
}

/// Computes `settings_changes`.
pub fn settings_changes_between(previous: SettingsPickerSelection, next: SettingsPickerSelection) -> (r: Vec<
    SettingsChange,
>)
    ensures
        r@.map_values(|c: SettingsChange| change_view(c)) == settings_changes(previous, next),
{
    let mut r: Vec<SettingsChange> = Vec::new();
    let ghost mut expected: Seq<(Option<Seq<char>>, Seq<char>, SettingValue)> = seq![];
    if next.auto_compact != previous.auto_compact {
        r.push(SettingsChange {
            parent: Some(owned("compaction")),
            key: owned("enabled"),
            value: SettingValue::Bool(next.auto_compact),
        });
        proof {
            expected = expected.push((Some("compaction"@), "enabled"@, SettingValue::Bool(next.auto_compact)));
        }
    }
    assert(r@.map_values(|c: SettingsChange| change_view(c)) =~= expected);
    if next.auto_resize_images != previous.auto_resize_images {
        r.push(SettingsChange {
            parent: Some(owned("images")),
            key: owned("autoResize"),
            value: SettingValue::Bool(next.auto_resize_images),
        });
        proof {
            expected = expected.push((Some("images"@), "autoResize"@, SettingValue::Bool(next.auto_resize_images)));
        }
    }
    assert(r@.map_values(|c: SettingsChange| change_view(c)) =~= expected);
    if next.block_images != previous.block_images {
        r.push(SettingsChange {
            parent: Some(owned("images")),
            key: owned("blockImages"),
            value: SettingValue::Bool(next.block_images),
        });
        proof {
            expected = expected.push((Some("images"@), "blockImages"@, SettingValue::Bool(next.block_images)));
        }
    }
    assert(r@.map_values(|c: SettingsChange| change_view(c)) =~= expected);
    if next.editor_padding_x != previous.editor_padding_x {
        r.push(SettingsChange {
            parent: None,
            key: owned("editorPaddingX"),
            value: SettingValue::Number(next.editor_padding_x),
        });
        proof {
            expected = expected.push((None, "editorPaddingX"@, SettingValue::Number(next.editor_padding_x)));
        }
    }
    assert(r@.map_values(|c: SettingsChange| change_view(c)) =~= expected);
    if next.autocomplete_max_visible != previous.autocomplete_max_visible {
        r.push(SettingsChange {
            parent: None,
            key: owned("autocompleteMaxVisible"),
            value: SettingValue::Number(next.autocomplete_max_visible),
        });
        proof {
            expected = expected.push(
                (None, "autocompleteMaxVisible"@, SettingValue::Number(next.autocomplete_max_visible)),
            );
        }
    }
    assert(r@.map_values(|c: SettingsChange| change_view(c)) =~= expected);
    assert(expected =~= settings_changes(previous, next));
    r
}

/// Nothing is written when nothing changed, and something is written
/// whenever a value changed.
pub proof fn lemma_changes_empty_iff_unchanged(previous: SettingsPickerSelection, next: SettingsPickerSelection)
    ensures
        (settings_changes(previous, next).len() == 0) == (previous == next),
{
}

/// Stepping a switch twice gives back the same values.
pub proof fn lemma_switch_step_twice_restores(s: SettingsPickerSelection, item: SettingsPickerItem, delta: int)
    requires
        item == SettingsPickerItem::AutoCompact || item == SettingsPickerItem::AutoResizeImages || item
            == SettingsPickerItem::BlockImages,
    ensures
        selection_stepped(selection_stepped(s, item, delta), item, delta) == s,
{
}

/// Stepping a number forward and then back gives back its value when it is
/// one of the choices.
pub proof fn lemma_cycle_round_trip(current: usize, values: Seq<usize>)
    requires
        position_in(values, current) is Some,
        values.no_duplicates(),
    ensures
        cycled(cycled(current, values, 1), values, -1) == current,
{
    lemma_position_in_found(values, current);
    let k = position_in(values, current)->0;
    let n = values.len();
    if k + 1 < n {
        vstd::arithmetic::div_mod::lemma_small_mod((k + 1) as nat, n);
    } else {
        vstd::arithmetic::div_mod::lemma_mod_self_0(n as int);
    }
    let next = ((k + 1) % n) as int;
    lemma_position_unique(values, next);
}

/// Stepping a number back and then forward gives back its value when it is
/// one of the choices.
pub proof fn lemma_cycle_back_round_trip(current: usize, values: Seq<usize>)
    requires
        position_in(values, current) is Some,
        values.no_duplicates(),
    ensures
        cycled(cycled(current, values, -1), values, 1) == current,
{
    lemma_position_in_found(values, current);
    let k = position_in(values, current)->0;
    let n = values.len();
    let prev: int = if k == 0 {
        n - 1
    } else {
        k - 1
    };
    lemma_position_unique(values, prev);
    if k == 0 {
        vstd::arithmetic::div_mod::lemma_mod_self_0(n as int);
    } else {
        vstd::arithmetic::div_mod::lemma_small_mod(k, n);
    }
}

/// A step always lands on one of the choices when there are any.
pub proof fn lemma_cycled_is_choice(current: usize, values: Seq<usize>, delta: int)
    requires
        values.len() > 0,
    ensures
        values.contains(cycled(current, values, delta)),
{
    lemma_position_in_found(values, current);
    let r = cycled(current, values, delta);
    match position_in(values, current) {
        None => {
            assert(values[0] == r);
        },
        Some(k) => {
            let n = values.len();
            let next: int = if delta < 0 {
                if k == 0 {
                    n - 1
                } else {
                    k - 1
                }
            } else {
                ((k + 1) % n) as int
            };
            vstd::arithmetic::div_mod::lemma_mod_bound((k + 1) as int, n as int);
            assert(values[next] == r);
        },
    }
}

/// `current` stepped forward `steps` times.
pub open spec fn cycled_forward(current: usize, values: Seq<usize>, steps: nat) -> usize
    decreases steps,
{
    if steps == 0 {
        current
    } else {
        cycled(cycled_forward(current, values, (steps - 1) as nat), values, 1)
    }
}

/// After `steps` forward steps a choice at position `k` has moved to
/// position `(k + steps) % n`.
proof fn lemma_cycled_forward_position(current: usize, values: Seq<usize>, steps: nat)
    requires
        position_in(values, current) is Some,
        values.no_duplicates(),
    ensures
        cycled_forward(current, values, steps) == values[((position_in(values, current)->0 + steps) % values.len()) as int],
    decreases steps,
{
    lemma_position_in_found(values, current);
    let k = position_in(values, current)->0;
    let n = values.len();
    if steps == 0 {
        vstd::arithmetic::div_mod::lemma_small_mod(k, n);
    } else {
        lemma_cycled_forward_position(current, values, (steps - 1) as nat);
        let p = ((k + steps - 1) % (n as int)) as int;
        vstd::arithmetic::div_mod::lemma_mod_bound((k + steps - 1) as int, n as int);
        lemma_position_unique(values, p);
        vstd::arithmetic::div_mod::lemma_add_mod_noop((k + steps - 1) as int, 1, n as int);
        if n > 1 {
            vstd::arithmetic::div_mod::lemma_small_mod(1, n);
        } else {
            assert(p == 0);
            assert(((p + 1) % 1) == 0);
            assert((k + steps) % 1 == 0);
        }
        vstd::arithmetic::div_mod::lemma_mod_twice((p + 1) as int, n as int);
    }
}

/// Stepping forward once per choice comes back to where it started.
pub proof fn lemma_cycle_full_turn(current: usize, values: Seq<usize>)
    requires
        position_in(values, current) is Some,
        values.no_duplicates(),
    ensures
        cycled_forward(current, values, values.len()) == current,
{
    lemma_position_in_found(values, current);
    let k = position_in(values, current)->0;
    let n = values.len();
    lemma_cycled_forward_position(current, values, n);
    vstd::arithmetic::div_mod::lemma_mod_add_multiples_vanish(k as int, n as int);
    vstd::arithmetic::div_mod::lemma_small_mod(k, n);
}

/// Stepping a row changes the setting that row names and no other: a
/// switch row flips its switch, a number row moves its number to one of its
/// choices.
pub proof fn lemma_step_changes_only_its_setting(s: SettingsPickerSelection, item: SettingsPickerItem, delta: int)
    ensures
        ({
            let r = selection_stepped(s, item, delta);
            &&& r.auto_compact == (if item == SettingsPickerItem::AutoCompact {
                !s.auto_compact
            } else {
                s.auto_compact
            })
            &&& r.auto_resize_images == (if item == SettingsPickerItem::AutoResizeImages {
                !s.auto_resize_images
            } else {
                s.auto_resize_images
            })
            &&& r.block_images == (if item == SettingsPickerItem::BlockImages {
                !s.block_images
            } else {
                s.block_images
            })
            &&& (item != SettingsPickerItem::EditorPadding ==> r.editor_padding_x == s.editor_padding_x)
            &&& (item == SettingsPickerItem::EditorPadding ==> padding_values().contains(r.editor_padding_x))
            &&& (item != SettingsPickerItem::AutocompleteMaxVisible ==> r.autocomplete_max_visible
                == s.autocomplete_max_visible)
            &&& (item == SettingsPickerItem::AutocompleteMaxVisible ==> autocomplete_values().contains(
                r.autocomplete_max_visible,
            ))
        }),
{
    lemma_cycled_is_choice(s.editor_padding_x, padding_values(), delta);
    lemma_cycled_is_choice(s.autocomplete_max_visible, autocomplete_values(), delta);
}

/// The rows, top to bottom, are the ones their labels name, in this order.
pub proof fn lemma_row_order()
    ensures
        item_label(item_at(0)) == "Auto-compact"@,
        item_label(item_at(1)) == "Auto-resize images"@,
        item_label(item_at(2)) == "Block images"@,
        item_label(item_at(3)) == "Editor padding"@,
        item_label(item_at(4)) == "Autocomplete max items"@,
{
}

/// Left or Right on the "Block images" row (the third) flips whether images
/// are blocked and leaves every other setting as it was.
pub proof fn lemma_block_images_row(st: SettingsPickerState, key: SettingsKey)
    requires
        st.selected == 2,
        key == SettingsKey::Left || key == SettingsKey::Right,
    ensures
        ({
            let r = st.key_step(key).0.selection;
            let s = st.selection;
            &&& r.block_images == !s.block_images
            &&& r.auto_compact == s.auto_compact
            &&& r.auto_resize_images == s.auto_resize_images
            &&& r.editor_padding_x == s.editor_padding_x
            &&& r.autocomplete_max_visible == s.autocomplete_max_visible
        }),
{
}

/// In a list without repeats, the position of an element is where it is.
proof fn lemma_position_unique(values: Seq<usize>, j: int)
    requires
        values.no_duplicates(),
        0 <= j < values.len(),
    ensures
        position_in(values, values[j]) == Some(j as nat),
    decreases values.len(),
{
    if j > 0 {
        let rest = values.drop_first();
        assert(rest[j - 1] == values[j]);
        assert(rest.no_duplicates()) by {
            assert forall|a: int, b: int| 0 <= a < rest.len() && 0 <= b < rest.len() && a != b implies rest[a]
                != rest[b] by {
                assert(rest[a] == values[a + 1] && rest[b] == values[b + 1]);
            }
        }
        lemma_position_unique(rest, j - 1);
        assert(values[0] != values[j]);
    }
}

} // verus!
