//! Reading the checked and selected things of a view's tree, and building
//! the actions that the views send for them.
use std::str::FromStr;

use vstd::prelude::*;

use crate::state::action::{Action, AudioAction, PopupAction, QueueAction, ViewAction};
use crate::state::library::RecordId;
use crate::ui::components::content_view::{ActiveView, spec_view_of};
use crate::ui::events::{KeyModifiers, MouseButton, MouseEvent, MouseEventKind, has_control};
use crate::ui::layout::{Position, Rect};
use crate::ui::widgets::popups::PopupType;

verus! {

/// The record id that `RecordId::from_str` of the storage crate reads from
/// a text, as (table, key), if it reads one.
pub uninterp spec fn spec_parse_record_id(s: Seq<char>) -> Option<(Seq<char>, Seq<char>)>;

/// The part of a text before its first `:` (all of it if it has none).
pub open spec fn spec_upto_colon(t: Seq<char>) -> Seq<char>
    decreases t.len(),
{
    if t.len() == 0 || t[0] == ':' {
        Seq::empty()
    } else {
        seq![t[0]] + spec_upto_colon(t.drop_first())
    }
}

/// The tables whose records the views show.
pub open spec fn spec_is_table_name(t: Seq<char>) -> bool {
    ||| t == "artist"@
    ||| t == "album"@
    ||| t == "song"@
    ||| t == "playlist"@
    ||| t == "collection"@
    ||| t == "dynamic"@
}

/// A character of a record key: a digit or an upper-case ASCII letter.
pub open spec fn spec_is_key_char(c: char) -> bool {
    ('0' <= c && c <= '9') || ('A' <= c && c <= 'Z')
}

/// The record id a text spells, as (table, key): the text up to its first
/// `:` names one of the tables, and the text after it, up to the next `:`,
/// is a key of 26 digits and upper-case letters.
pub open spec fn spec_read_record_id(t: Seq<char>) -> Option<(Seq<char>, Seq<char>)> {
    let table = spec_upto_colon(t);
    let key = spec_upto_colon(t.subrange(table.len() + 1 as int, t.len() as int));
    if t.contains(':') && spec_is_table_name(table) && key.len() == 26 && (forall|i: int|
        0 <= i < key.len() ==> spec_is_key_char(#[trigger] key[i])) {
        Some((table, key))
    } else {
        None
    }
}

/// Whether the text starts and ends with a visible ASCII character (or is
/// empty), so that trimming white space leaves it as it is.
pub open spec fn spec_plain_ends(t: Seq<char>) -> bool {
    t.len() == 0 || (0x21 <= (t[0] as u32) <= 0x7e && 0x21 <= (t.last() as u32) <= 0x7e)
}

/// Calls `mecomp_storage::db::schemas::RecordId::from_str` and converts the
/// record id it reads (its key written as text). The contract claims that
/// the result is the named function `spec_parse_record_id` of the text, and,
/// for a text with plain ends, what the source shows: the text is trimmed of
/// white space and cut at each `:`, and the first two pieces must be a
/// table name and a key of 26 digits and upper-case letters
/// ([`spec_read_record_id`]). Which characters trimming takes off is left
/// unsaid beyond that.
#[verifier::external_body]
fn parse_record_id(s: &str) -> (r: Option<RecordId>)
    ensures
        match r {
            Some(id) => spec_parse_record_id(s@) == Some((id.tb@, id.id@)),
            None => spec_parse_record_id(s@) is None,
        },
        spec_plain_ends(s@) ==> match r {
            Some(id) => spec_read_record_id(s@) == Some((id.tb@, id.id@)),
            None => spec_read_record_id(s@) is None,
        },
{
    let parsed = mecomp_storage::db::schemas::RecordId::from_str(s).ok()?;
    Some(RecordId { tb: parsed.tb, id: parsed.id.to_string() })
}

/// The first identifier along a tree path that reads as a record id.
pub open spec fn spec_first_record_id(path: Seq<String>) -> Option<(Seq<char>, Seq<char>)>
    decreases path.len(),
{
    if path.len() == 0 {
        None
    } else {
        match spec_parse_record_id(path[0]@) {
            Some(id) => Some(id),
            None => spec_first_record_id(path.drop_first()),
        }
    }
}

/// The record ids read from the checked paths, in order; a path with no
/// record id on it is skipped.
pub open spec fn spec_checked_record_ids(paths: Seq<Vec<String>>) -> Seq<(Seq<char>, Seq<char>)>
    decreases paths.len(),
{
    if paths.len() == 0 {
        Seq::empty()
    } else {
        let rest = spec_checked_record_ids(paths.drop_first());
        match spec_first_record_id(paths[0]@) {
            Some(id) => seq![id] + rest,
            None => rest,
        }
    }
}

/// A record id as (table, key).
pub open spec fn id_pair(id: RecordId) -> (Seq<char>, Seq<char>) {
    (id.tb@, id.id@)
}

/// Record ids as (table, key) pairs.
pub open spec fn id_pairs(ids: Seq<RecordId>) -> Seq<(Seq<char>, Seq<char>)> {
    ids.map_values(|id: RecordId| id_pair(id))
}

/// Whether `parsed` holds what each identifier of `path` reads as.
pub open spec fn parsed_along(path: Seq<String>, parsed: Seq<Option<RecordId>>) -> bool {
    &&& parsed.len() == path.len()
    &&& forall|j: int|
        0 <= j < path.len() ==> match #[trigger] parsed[j] {
            Some(id) => spec_parse_record_id(path[j]@) == Some(id_pair(id)),
            None => spec_parse_record_id(path[j]@) is None,
        }
}

/// The first record id in the list.
pub open spec fn spec_first_some(ids: Seq<Option<RecordId>>) -> Option<RecordId>
    decreases ids.len(),
{
    if ids.len() == 0 {
        None
    } else {
        match ids[0] {
            Some(id) => Some(id),
            None => spec_first_some(ids.drop_first()),
        }
    }
}

proof fn lemma_first_some_reads(path: Seq<String>, parsed: Seq<Option<RecordId>>)
    requires
        parsed_along(path, parsed),
    ensures
        match spec_first_some(parsed) {
            Some(id) => spec_first_record_id(path) == Some(id_pair(id)),
            None => spec_first_record_id(path) is None,
        },
    decreases path.len(),
{
    if path.len() > 0 {
        assert(parsed[0] == parsed[0]);
        assert(parsed_along(path.drop_first(), parsed.drop_first())) by {
            assert forall|j: int| 0 <= j < path.drop_first().len() implies match #[trigger] parsed.drop_first()[j] {
                Some(id) => spec_parse_record_id(path.drop_first()[j]@) == Some(id_pair(id)),
                None => spec_parse_record_id(path.drop_first()[j]@) is None,
            } by {
                assert(parsed.drop_first()[j] == parsed[j + 1]);
            }
        }
        lemma_first_some_reads(path.drop_first(), parsed.drop_first());
    }
}

/// The first record id among what the identifiers of a path read as (see
/// [`spec_first_some`]).
pub fn first_record_id(parsed: &Vec<Option<RecordId>>) -> (r: Option<RecordId>)
    ensures
        r == spec_first_some(parsed@),
{
    let mut i: usize = 0;
    assert(parsed@.skip(0) =~= parsed@);
    while i < parsed.len()
        invariant
            i <= parsed.len(),
            spec_first_some(parsed@) == spec_first_some(parsed@.skip(i as int)),
        decreases parsed.len() - i,
    {
        assert(parsed@.skip(i as int).drop_first() =~= parsed@.skip(i + 1));
        match &parsed[i] {
            Some(id) => {
                return Some(id.clone());
            },
            None => {},
        }
        i = i + 1;
    }
    None
}

/// The first identifier along the path that reads as a record id.
pub fn get_selected_thing(path: &Vec<String>) -> (r: Option<RecordId>)
    ensures
        match r {
            Some(id) => spec_first_record_id(path@) == Some(id_pair(id)),
            None => spec_first_record_id(path@) is None,
        },
{
    let mut parsed: Vec<Option<RecordId>> = Vec::new();
    let mut i: usize = 0;
    while i < path.len()
        invariant
            i <= path.len(),
            parsed_along(path@.subrange(0, i as int), parsed@),
        decreases path.len() - i,
    {
        let id = parse_record_id(path[i].as_str());
        parsed.push(id);
        proof {
            let sub = path@.subrange(0, i + 1);
            assert forall|j: int| 0 <= j < sub.len() implies match #[trigger] parsed@[j] {
                Some(id) => spec_parse_record_id(sub[j]@) == Some(id_pair(id)),
                None => spec_parse_record_id(sub[j]@) is None,
            } by {
                if j < i {
                    assert(sub[j] == path@.subrange(0, i as int)[j]);
                }
            }
        }
        i = i + 1;
    }
    assert(path@.subrange(0, path@.len() as int) =~= path@);
    proof {
        lemma_first_some_reads(path@, parsed@);
    }
    first_record_id(&parsed)
}

/// The record ids of the checked things: for each checked path, the first
/// identifier on it that reads as a record id.
pub fn get_checked_things(checked: &Vec<Vec<String>>) -> (r: Vec<RecordId>)
    ensures
        id_pairs(r@) == spec_checked_record_ids(checked@),
{
    let mut out: Vec<RecordId> = Vec::new();
    let mut i: usize = checked.len();
    assert(checked@.skip(checked@.len() as int) =~= Seq::<Vec<String>>::empty());
    while i > 0
        invariant
            i <= checked.len(),
            id_pairs(out@) == spec_checked_record_ids(checked@.skip(i as int)),
        decreases i,
    {
        i = i - 1;
        assert(checked@.skip(i as int).drop_first() =~= checked@.skip(i + 1));
        if let Some(id) = get_selected_thing(&checked[i]) {
            let ghost prev = out@;
            out.insert(0, id);
            assert(id_pairs(out@) =~= seq![id_pair(id)] + id_pairs(prev));
        }
    }
    assert(checked@.skip(0) =~= checked@);
    out
}

/// The action that adds the checked things to a playlist, or the thing the
/// view shows when nothing is checked (none if the view shows nothing).
pub fn construct_add_to_playlist_action(checked_things: Vec<RecordId>, current_thing: Option<&RecordId>) -> (r: Option<Action>)
    ensures
        checked_things@.len() > 0 ==> r == Some(
            Action::Popup(PopupAction::Open(PopupType::Playlist(checked_things))),
        ),
        checked_things@.len() == 0 ==> match current_thing {
            Some(id) => r matches Some(Action::Popup(PopupAction::Open(PopupType::Playlist(v))))
                && v@ == seq![*id],
            None => r is None,
        },
{
    if checked_things.len() == 0 {
        match current_thing {
            Some(id) => {
                let mut v = Vec::new();
                v.push(id.clone());
                assert(v@ =~= seq![*id]);
                Some(Action::Popup(PopupAction::Open(PopupType::Playlist(v))))
            },
            None => None,
        }
    } else {
        Some(Action::Popup(PopupAction::Open(PopupType::Playlist(checked_things))))
    }
}

/// The action that adds the checked things to the queue, or the thing the
/// view shows when nothing is checked (none if the view shows nothing).
pub fn construct_add_to_queue_action(checked_things: Vec<RecordId>, current_thing: Option<&RecordId>) -> (r: Option<Action>)
    ensures
        checked_things@.len() > 0 ==> r == Some(
            Action::Audio(AudioAction::Queue(QueueAction::Add(checked_things))),
        ),
        checked_things@.len() == 0 ==> match current_thing {
            Some(id) => r matches Some(Action::Audio(AudioAction::Queue(QueueAction::Add(v))))
                && v@ == seq![*id],
            None => r is None,
        },
{
    if checked_things.len() == 0 {
        match current_thing {
            Some(id) => {
                let mut v = Vec::new();
                v.push(id.clone());
                assert(v@ =~= seq![*id]);
                Some(Action::Audio(AudioAction::Queue(QueueAction::Add(v))))
            },
            None => None,
        }
    } else {
        Some(Action::Audio(AudioAction::Queue(QueueAction::Add(checked_things))))
    }
}

/// The action that starts a radio from the checked things, or from the
/// thing the view shows when nothing is checked (none if the view shows
/// nothing).
pub fn construct_start_radio_action(checked_things: Vec<RecordId>, current_thing: Option<&RecordId>) -> (r: Option<Action>)
    ensures
        checked_things@.len() > 0 ==> r == Some(
            Action::ActiveView(ViewAction::Open(ActiveView::Radio(checked_things))),
        ),
        checked_things@.len() == 0 ==> match current_thing {
            Some(id) => r matches Some(Action::ActiveView(ViewAction::Open(ActiveView::Radio(v))))
                && v@ == seq![*id],
            None => r is None,
        },
{
    if checked_things.len() == 0 {
        match current_thing {
            Some(id) => {
                let mut v = Vec::new();
                v.push(id.clone());
                assert(v@ =~= seq![*id]);
                Some(Action::ActiveView(ViewAction::Open(ActiveView::Radio(v))))
            },
            None => None,
        }
    } else {
        Some(Action::ActiveView(ViewAction::Open(ActiveView::Radio(checked_things))))
    }
}

/// What a mouse event does to a view's tree.
#[derive(Debug, Clone, Copy, PartialEq, Eq, Structural)]
pub enum TreeMouse {
    /// A left click at the position: select, or toggle, the item there.
    Click(Position),
    /// Select the item below.
    ScrollDown,
    /// Select the item above.
    ScrollUp,
}

/// What a mouse event does to a tree drawn in `area`: nothing outside it.
pub open spec fn spec_tree_mouse(event: MouseEvent, area: Rect) -> Option<TreeMouse> {
    let p = Position { x: event.column, y: event.row };
    if !area.spec_contains(p) {
        None
    } else {
        match event.kind {
            MouseEventKind::Down(MouseButton::Left) => Some(TreeMouse::Click(p)),
            MouseEventKind::ScrollDown => Some(TreeMouse::ScrollDown),
            MouseEventKind::ScrollUp => Some(TreeMouse::ScrollUp),
            _ => None,
        }
    }
}

/// What a mouse event does to a tree drawn in `area`.
pub fn tree_mouse(event: MouseEvent, area: Rect) -> (r: Option<TreeMouse>)
    ensures
        r == spec_tree_mouse(event, area),
{
    let p = Position::new(event.column, event.row);
    if !area.contains(p) {
        return None;
    }
    match event.kind {
        MouseEventKind::Down(MouseButton::Left) => Some(TreeMouse::Click(p)),
        MouseEventKind::ScrollDown => Some(TreeMouse::ScrollDown),
        MouseEventKind::ScrollUp => Some(TreeMouse::ScrollUp),
        _ => None,
    }
}

/// Whether a click opens the selected item: a control-click that hit an
/// item does, and `swap` turns that round.
pub open spec fn spec_click_opens(ctrl: bool, click_result: bool, swap: bool) -> bool {
    (ctrl && click_result) != swap
}

/// The action after a click on a tree (`click_result`: whether the click
/// hit an item): opening the selected thing's view when the click opens it
/// (see [`spec_click_opens`]) and a thing is selected.
pub fn tree_click_action(modifiers: KeyModifiers, click_result: bool, swap: bool, selected: Option<RecordId>) -> (r: Option<Action>)
    ensures
        r == if spec_click_opens(has_control(modifiers), click_result, swap) && selected is Some {
            Some(Action::ActiveView(ViewAction::Open(spec_view_of(selected->0))))
        } else {
            None
        },
{
    let condition = modifiers.contains_control() && click_result;
    let condition = if swap {
        !condition
    } else {
        condition
    };
    if condition {
        match selected {
            Some(thing) => Some(Action::ActiveView(ViewAction::Open(ActiveView::from(thing)))),
            None => None,
        }
    } else {
        None
    }
}

} // verus!
