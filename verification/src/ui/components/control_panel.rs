//! The control panel at the bottom of the screen: it shows what is playing,
//! and lets the user play, pause, skip, seek and change the volume.
use vstd::prelude::*;

use crate::state::action::{Action, AudioAction, ComponentAction, PlaybackAction, SeekType, VolumeAction};
use crate::state::component::ActiveComponent;
use crate::ui::events::{KeyCode, KeyEvent, MouseButton, MouseEvent, MouseEventKind};
use crate::ui::layout::{Constraint, Position, Rect, lemma_layout_parts, sat_add, spec_layout_of, spec_part_of, split3};

verus! {

/// How far the arrows seek: five seconds, in nanoseconds.
pub const SEEK_STEP_NS: u64 = 5_000_000_000;

/// How much a volume key or scroll changes the volume: five hundredths.
pub const VOLUME_STEP: u32 = 5;

/// What the control panel shows and reads. The two label widths are those
/// of the play time label ("m:ss.s/m:ss.s") and of the volume label, which
/// the front end writes.
#[derive(Debug, Clone, PartialEq, Eq)]
pub struct Props {
    pub is_playing: bool,
    pub muted: bool,
    /// The length of the current song in nanoseconds, if one is playing.
    pub duration_ns: Option<u64>,
    pub song_title: Option<String>,
    pub song_artist: Option<String>,
    pub runtime_label_width: u16,
    pub volume_label_width: u16,
}

/// The action of a key: space plays or pauses, `n` and `p` skip forward
/// and back, the arrows seek five seconds, `+`/`=` and `-`/`_` change the
/// volume by five hundredths, `m` mutes or unmutes.
pub open spec fn spec_key_action(code: KeyCode) -> Option<Action> {
    match code {
        KeyCode::Char(' ') => Some(Action::Audio(AudioAction::Playback(PlaybackAction::Toggle))),
        KeyCode::Char('n') => Some(Action::Audio(AudioAction::Playback(PlaybackAction::Next))),
        KeyCode::Char('p') => Some(Action::Audio(AudioAction::Playback(PlaybackAction::Previous))),
        KeyCode::Right => Some(
            Action::Audio(AudioAction::Playback(PlaybackAction::Seek(SeekType::RelativeForwards, SEEK_STEP_NS))),
        ),
        KeyCode::Left => Some(
            Action::Audio(AudioAction::Playback(PlaybackAction::Seek(SeekType::RelativeBackwards, SEEK_STEP_NS))),
        ),
        KeyCode::Char('+') | KeyCode::Char('=') => Some(
            Action::Audio(AudioAction::Playback(PlaybackAction::Volume(VolumeAction::Increase(VOLUME_STEP)))),
        ),
        KeyCode::Char('-') | KeyCode::Char('_') => Some(
            Action::Audio(AudioAction::Playback(PlaybackAction::Volume(VolumeAction::Decrease(VOLUME_STEP)))),
        ),
        KeyCode::Char('m') => Some(Action::Audio(AudioAction::Playback(PlaybackAction::ToggleMute))),
        _ => None,
    }
}

/// The parts of the control panel: the song info, the playback line and
/// the instructions, top to bottom; the playback line holds the play/pause
/// indicator, the progress bar and the volume, left to right.
#[derive(Debug, Clone, Copy, PartialEq, Eq, Structural)]
pub struct Areas {
    pub song_info: Rect,
    pub play_pause: Rect,
    pub song_progress: Rect,
    pub volume: Rect,
    pub instructions: Rect,
}

/// The rows the control panel is cut into: the song info, the playback
/// line and the instructions, each at least a line high.
pub open spec fn spec_row_constraints() -> Seq<Constraint> {
    seq![Constraint::Min(1), Constraint::Min(1), Constraint::Min(1)]
}

/// The columns the playback line is cut into: the play/pause indicator (at
/// least 10 columns), the progress bar (80%) and the volume (at least 20
/// columns).
pub open spec fn spec_playback_constraints() -> Seq<Constraint> {
    seq![Constraint::Min(10), Constraint::Percentage(80), Constraint::Min(20)]
}

/// Whether `areas` are the parts the layout cuts `area` into, the playback
/// line being `playback`: the song info, the playback line and the
/// instructions top to bottom ([`spec_row_constraints`]), and the
/// play/pause indicator, the progress bar and the volume left to right in
/// the playback line ([`spec_playback_constraints`]).
pub open spec fn spec_areas_with(areas: Areas, area: Rect, playback: Rect) -> bool {
    &&& spec_layout_of(seq![areas.song_info, playback, areas.instructions], area, true, spec_row_constraints())
    &&& spec_layout_of(
        seq![areas.play_pause, areas.song_progress, areas.volume],
        playback,
        false,
        spec_playback_constraints(),
    )
}

/// Whether `areas` are the parts the layout cuts `area` into (see
/// [`spec_areas_with`]).
pub open spec fn spec_areas_of(areas: Areas, area: Rect) -> bool {
    exists|playback: Rect| #[trigger] spec_areas_with(areas, area, playback)
}

/// Cuts the control panel's area into its parts with the terminal
/// library's layout (see [`spec_areas_of`]); the library's solver decides
/// where the parts start and end, and [`ControlPanel::handle_mouse_in`]
/// takes such parts as given.
pub fn split_area(area: Rect) -> (r: Areas)
    ensures
        spec_areas_of(r, area),
{
    let (song_info, playback, instructions) = split3(
        area,
        true,
        Constraint::Min(1),
        Constraint::Min(1),
        Constraint::Min(1),
    );
    let (play_pause, song_progress, volume) = split3(
        playback,
        false,
        Constraint::Min(10),
        Constraint::Percentage(80),
        Constraint::Min(20),
    );
    let r = Areas { song_info, play_pause, song_progress, volume, instructions };
    assert(spec_areas_with(r, area, playback));
    r
}

/// Where a click on the progress bar seeks to: the same fraction of the
/// song as the click is of the bar's width, to the nanosecond, rounded down (the
/// start of the song when nothing plays).
pub open spec fn spec_seek_target(duration_ns: Option<u64>, offset: u16, width: u16) -> u64 {
    match duration_ns {
        Some(d) => ((d as int) * (offset as int) / (width as int)) as u64,
        None => 0,
    }
}

/// The parts of the playback line that take clicks: the play/pause icon,
/// the progress bar after the time label, and the volume label. They fit
/// when the icon's and the time label's positions can be worked out
/// within the screen's coordinates.
pub open spec fn spec_click_areas_fit(areas: Areas, runtime_label_width: u16) -> bool {
    &&& areas.play_pause.x + areas.play_pause.width >= 3
    &&& areas.play_pause.x + areas.play_pause.width <= u16::MAX
    &&& areas.song_progress.x + runtime_label_width <= u16::MAX
    &&& areas.song_progress.width >= runtime_label_width
}

/// The play/pause icon's part of the playback line.
pub open spec fn spec_icon_area(areas: Areas) -> Rect {
    Rect {
        x: (areas.play_pause.x + areas.play_pause.width - 3) as u16,
        y: areas.play_pause.y,
        width: 2,
        height: areas.play_pause.height,
    }
}

/// The progress bar's part of the playback line, after the time label.
pub open spec fn spec_progress_area(areas: Areas, runtime_label_width: u16) -> Rect {
    Rect {
        x: (areas.song_progress.x + runtime_label_width) as u16,
        y: areas.song_progress.y,
        width: (areas.song_progress.width - runtime_label_width) as u16,
        height: areas.song_progress.height,
    }
}

/// The volume label's part of the playback line.
pub open spec fn spec_volume_area(areas: Areas, volume_label_width: u16) -> Rect {
    Rect { x: areas.volume.x, y: areas.volume.y, width: volume_label_width, height: areas.volume.height }
}

/// Scrolling on the volume label changes the volume by a step: up raises
/// it, down lowers it, and the two directions at the same spot give
/// opposite changes of the same size; scrolling anywhere else on the
/// playback line does nothing.
pub proof fn lemma_scroll_changes_volume(panel: ControlPanel, mouse: MouseEvent, areas: Areas)
    ensures
        ({
            let p = Position { x: mouse.column, y: mouse.row };
            let on_label = spec_volume_area(areas, panel.props.volume_label_width).spec_contains(p);
            let up = MouseEvent { kind: MouseEventKind::ScrollUp, ..mouse };
            let down = MouseEvent { kind: MouseEventKind::ScrollDown, ..mouse };
            &&& on_label ==> panel.spec_playback_action(up, areas) == Some(
                Action::Audio(AudioAction::Playback(PlaybackAction::Volume(VolumeAction::Increase(VOLUME_STEP)))),
            )
            &&& on_label ==> panel.spec_playback_action(down, areas) == Some(
                Action::Audio(AudioAction::Playback(PlaybackAction::Volume(VolumeAction::Decrease(VOLUME_STEP)))),
            )
            &&& !on_label ==> panel.spec_playback_action(up, areas) is None
            &&& !on_label ==> panel.spec_playback_action(down, areas) is None
        }),
{
}

/// The focusing a mouse event does: a left click in the panel's area sends
/// the action that focuses the control panel.
pub open spec fn spec_focus_part(mouse: MouseEvent, area: Rect) -> Seq<Action> {
    if mouse.kind == MouseEventKind::Down(MouseButton::Left) && area.spec_contains(
        Position { x: mouse.column, y: mouse.row },
    ) {
        seq![Action::ActiveComponent(ComponentAction::Focus(ActiveComponent::ControlPanel))]
    } else {
        Seq::<Action>::empty()
    }
}

/// The control panel.
#[derive(Debug)]
pub struct ControlPanel {
    pub props: Props,
}

impl ControlPanel {
    pub fn new(props: Props) -> (r: Self)
        ensures
            r.props == props,
    {
        ControlPanel { props }
    }

    /// The control panel showing the current player state.
    pub fn move_with_state(self, props: Props) -> (r: Self)
        ensures
            r.props == props,
    {
        ControlPanel { props }
    }

    pub fn name(&self) -> (r: &'static str)
        ensures
            r@ == "ControlPanel"@,
    {
        "ControlPanel"
    }

    /// The action of a key (see [`spec_key_action`]).
    pub fn handle_key_event(&self, key: KeyEvent) -> (r: Option<Action>)
        ensures
            r == spec_key_action(key.code),
    {
        match key.code {
            KeyCode::Char(' ') => Some(Action::Audio(AudioAction::Playback(PlaybackAction::Toggle))),
            KeyCode::Char('n') => Some(Action::Audio(AudioAction::Playback(PlaybackAction::Next))),
            KeyCode::Char('p') => Some(Action::Audio(AudioAction::Playback(PlaybackAction::Previous))),
            KeyCode::Right => Some(
                Action::Audio(
                    AudioAction::Playback(PlaybackAction::Seek(SeekType::RelativeForwards, SEEK_STEP_NS)),
                ),
            ),
            KeyCode::Left => Some(
                Action::Audio(
                    AudioAction::Playback(PlaybackAction::Seek(SeekType::RelativeBackwards, SEEK_STEP_NS)),
                ),
            ),
            KeyCode::Char('+') | KeyCode::Char('=') => Some(
                Action::Audio(AudioAction::Playback(PlaybackAction::Volume(VolumeAction::Increase(VOLUME_STEP)))),
            ),
            KeyCode::Char('-') | KeyCode::Char('_') => Some(
                Action::Audio(AudioAction::Playback(PlaybackAction::Volume(VolumeAction::Decrease(VOLUME_STEP)))),
            ),
            KeyCode::Char('m') => Some(Action::Audio(AudioAction::Playback(PlaybackAction::ToggleMute))),
            _ => None,
        }
    }

    /// What a mouse event on the playback line does, its parts given: a
    /// left click on the icon plays or pauses, on the progress bar seeks
    /// there, on the volume label mutes or unmutes; scrolling on the volume
    /// label changes the volume by five hundredths.
    pub fn playback_action(&self, mouse: MouseEvent, areas: Areas) -> (r: Option<Action>)
        requires
            spec_click_areas_fit(areas, self.props.runtime_label_width),
        ensures
            r == self.spec_playback_action(mouse, areas),
            mouse.kind == MouseEventKind::ScrollUp && spec_volume_area(areas, self.props.volume_label_width).spec_contains(
                Position { x: mouse.column, y: mouse.row },
            ) ==> r == Some(
                Action::Audio(AudioAction::Playback(PlaybackAction::Volume(VolumeAction::Increase(VOLUME_STEP)))),
            ),
            mouse.kind == MouseEventKind::ScrollDown && spec_volume_area(areas, self.props.volume_label_width).spec_contains(
                Position { x: mouse.column, y: mouse.row },
            ) ==> r == Some(
                Action::Audio(AudioAction::Playback(PlaybackAction::Volume(VolumeAction::Decrease(VOLUME_STEP)))),
            ),
    {
        let p = Position::new(mouse.column, mouse.row);
        let rlen = self.props.runtime_label_width;
        let icon = Rect {
            x: areas.play_pause.x + areas.play_pause.width - 3,
            y: areas.play_pause.y,
            width: 2,
            height: areas.play_pause.height,
        };
        let progress = Rect {
            x: areas.song_progress.x + rlen,
            y: areas.song_progress.y,
            width: areas.song_progress.width - rlen,
            height: areas.song_progress.height,
        };
        let volume = Rect {
            x: areas.volume.x,
            y: areas.volume.y,
            width: self.props.volume_label_width,
            height: areas.volume.height,
        };
        let left_click = mouse.kind == MouseEventKind::Down(MouseButton::Left);
        if left_click && icon.contains(p) {
            Some(Action::Audio(AudioAction::Playback(PlaybackAction::Toggle)))
        } else if left_click && progress.contains(p) {
            let offset = mouse.column - progress.x;
            let target: u64 = match self.props.duration_ns {
                Some(d) => {
                    let dd = d as u128;
                    let oo = offset as u128;
                    let ww = progress.width as u128;
                    assert(dd * oo <= dd * ww) by (nonlinear_arith)
                        requires
                            oo < ww,
                    ;
                    assert((dd * oo) / (ww as int) <= dd) by (nonlinear_arith)
                        requires
                            dd * oo <= dd * ww,
                            ww > 0,
                    ;
                    assert(dd * ww <= 0xffff_ffff_ffff_ffffu128 * 0xffffu128) by (nonlinear_arith)
                        requires
                            dd <= 0xffff_ffff_ffff_ffffu128,
                            ww <= 0xffffu128,
                    ;
                    let wide = dd * oo / ww;
                    wide as u64
                },
                None => 0,
            };
            Some(Action::Audio(AudioAction::Playback(PlaybackAction::Seek(SeekType::Absolute, target))))
        } else if left_click && volume.contains(p) {
            Some(Action::Audio(AudioAction::Playback(PlaybackAction::ToggleMute)))
        } else if mouse.kind == MouseEventKind::ScrollUp && volume.contains(p) {
            Some(Action::Audio(AudioAction::Playback(PlaybackAction::Volume(VolumeAction::Increase(VOLUME_STEP)))))
        } else if mouse.kind == MouseEventKind::ScrollDown && volume.contains(p) {
            Some(Action::Audio(AudioAction::Playback(PlaybackAction::Volume(VolumeAction::Decrease(VOLUME_STEP)))))
        } else {
            None
        }
    }

    /// What a mouse event does: a left click in the panel focuses it first;
    /// then the event acts on the playback line (see
    /// [`Self::playback_action`]), the panel's parts being those the layout
    /// gives below its top border ([`split_area`]), whatever they are (see
    /// [`Self::handle_mouse_in`]). So an event on a row outside the panel,
    /// or on its top border, does nothing but that focusing, and an event
    /// that is neither a left click nor a scroll does nothing at all. The
    /// panel must be at least a line high.
    pub fn handle_mouse_event(&self, mouse: MouseEvent, area: Rect) -> (r: Option<Vec<Action>>)
        requires
            area.height >= 1,
            area.y < u16::MAX,
        ensures
            exists|areas: Areas|
                spec_areas_of(areas, Rect { x: area.x, y: (area.y + 1) as u16, width: area.width, height: (area.height - 1) as u16 })
                    && #[trigger] self.spec_mouse_outcome(mouse, area, areas, r),
            r matches Some(v) && v@.take(spec_focus_part(mouse, area).len() as int) == spec_focus_part(mouse, area),
            mouse.kind == MouseEventKind::Down(MouseButton::Left) && area.spec_contains(
                Position { x: mouse.column, y: mouse.row },
            ) ==> (r matches Some(v) && v@.len() >= 1 && v@[0] == Action::ActiveComponent(
                ComponentAction::Focus(ActiveComponent::ControlPanel),
            )),
            mouse.row <= area.y || mouse.row >= sat_add(area.y, area.height) ==> (r matches Some(v) && v@
                == spec_focus_part(mouse, area)),
            mouse.kind != MouseEventKind::Down(MouseButton::Left) && mouse.kind != MouseEventKind::ScrollUp
                && mouse.kind != MouseEventKind::ScrollDown ==> (r matches Some(v) && v@.len() == 0),
    {
        let inner = Rect { x: area.x, y: area.y + 1, width: area.width, height: area.height - 1 };
        let areas = split_area(inner);
        let r = self.handle_mouse_in(mouse, area, areas);
        assert(self.spec_mouse_outcome(mouse, area, areas, r));
        proof {
            let playback = choose|playback: Rect| #[trigger] spec_areas_with(areas, inner, playback);
            let rows = seq![areas.song_info, playback, areas.instructions];
            let cols = seq![areas.play_pause, areas.song_progress, areas.volume];
            lemma_layout_parts(rows, inner, true, spec_row_constraints());
            lemma_layout_parts(cols, playback, false, spec_playback_constraints());
            assert(spec_part_of(rows[1], inner, true));
            assert(spec_part_of(cols[0], playback, false));
            assert(spec_part_of(cols[1], playback, false));
            assert(spec_part_of(cols[2], playback, false));
            if mouse.row <= area.y || mouse.row >= sat_add(area.y, area.height) {
                assert(self.spec_playback_action(mouse, areas) is None);
            }
        }
        r
    }

    /// What a mouse event does to the panel drawn in `area`, whose parts
    /// (below its top border) are `areas`: a left click in the panel
    /// focuses it ([`spec_focus_part`]); then the event acts on the
    /// playback line (see [`Self::playback_action`]), unless the parts leave
    /// no room for the icon or the time label.
    pub open spec fn spec_mouse_outcome(&self, mouse: MouseEvent, area: Rect, areas: Areas, r: Option<Vec<Action>>) -> bool {
        r matches Some(actions) && actions@ == spec_focus_part(mouse, area) + if spec_click_areas_fit(
            areas,
            self.props.runtime_label_width,
        ) {
            match self.spec_playback_action(mouse, areas) {
                Some(x) => seq![x],
                None => Seq::<Action>::empty(),
            }
        } else {
            Seq::<Action>::empty()
        }
    }

    /// What a mouse event does to the panel drawn in `area`, whose parts are
    /// `areas` (see [`Self::spec_mouse_outcome`]).
    pub fn handle_mouse_in(&self, mouse: MouseEvent, area: Rect, areas: Areas) -> (r: Option<Vec<Action>>)
        ensures
            self.spec_mouse_outcome(mouse, area, areas, r),
    {
        let mut actions: Vec<Action> = Vec::new();
        let p = Position::new(mouse.column, mouse.row);
        if mouse.kind == MouseEventKind::Down(MouseButton::Left) && area.contains(p) {
            actions.push(Action::ActiveComponent(ComponentAction::Focus(ActiveComponent::ControlPanel)));
        }
        assert(actions@ =~= spec_focus_part(mouse, area));
        let rlen = self.props.runtime_label_width;
        let pp = areas.play_pause;
        let sp = areas.song_progress;
        if (pp.x as u32) + (pp.width as u32) < 3 || (pp.x as u32) + (pp.width as u32) > 65535
            || (sp.x as u32) + (rlen as u32) > 65535 || sp.width < rlen {
            assert(actions@ =~= spec_focus_part(mouse, area) + Seq::<Action>::empty());
            return Some(actions);
        }
        let ghost before = actions@;
        let a = self.playback_action(mouse, areas);
        match a {
            Some(x) => actions.push(x),
            None => {},
        }
        assert(actions@ =~= before + match a {
            Some(x) => seq![x],
            None => Seq::<Action>::empty(),
        });
        Some(actions)
    }

    /// The action of a mouse event on the playback line, its parts given.
    pub open spec fn spec_playback_action(&self, mouse: MouseEvent, areas: Areas) -> Option<Action> {
        let p = Position { x: mouse.column, y: mouse.row };
        let icon = spec_icon_area(areas);
        let progress = spec_progress_area(areas, self.props.runtime_label_width);
        let volume = spec_volume_area(areas, self.props.volume_label_width);
        let left_click = mouse.kind == MouseEventKind::Down(MouseButton::Left);
        if left_click && icon.spec_contains(p) {
            Some(Action::Audio(AudioAction::Playback(PlaybackAction::Toggle)))
        } else if left_click && progress.spec_contains(p) {
            Some(
                Action::Audio(
                    AudioAction::Playback(
                        PlaybackAction::Seek(
                            SeekType::Absolute,
                            spec_seek_target(self.props.duration_ns, (mouse.column - progress.x) as u16, progress.width),
                        ),
                    ),
                ),
            )
        } else if left_click && volume.spec_contains(p) {
            Some(Action::Audio(AudioAction::Playback(PlaybackAction::ToggleMute)))
        } else if mouse.kind == MouseEventKind::ScrollUp && volume.spec_contains(p) {
            Some(Action::Audio(AudioAction::Playback(PlaybackAction::Volume(VolumeAction::Increase(VOLUME_STEP)))))
        } else if mouse.kind == MouseEventKind::ScrollDown && volume.spec_contains(p) {
            Some(Action::Audio(AudioAction::Playback(PlaybackAction::Volume(VolumeAction::Decrease(VOLUME_STEP)))))
        } else {
            None
        }
    }
}

} // verus!
