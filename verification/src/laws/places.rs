//! Places and measures: paths, areas, colors, times and the clipboard.

use vstd::prelude::*;
use vstd::string::*;
use crate::clipboard::{next_step, ClipboardCommand, ClipboardEnvironment, ClipboardStep, Platform};
use crate::emulator::{Rgb, NAMED_BACKGROUND, NAMED_FOREGROUND};
use crate::geometry::{frame_areas, inner_size, Rect};
use crate::location::{
    components, counted, is_absolute, label_of, parent_of, path_join, pieces, same_path,
};
use crate::moment::{earliest, is_due, Moment};
use crate::palette::{query_color, HostColors};

verus! {

/// The frame has a sidebar of 32 columns at the left, a status line at the bottom,
/// and the rest for the pane; the screen inside has a cell less on each side, but
/// is never smaller than eight by eight.
pub proof fn the_frame_is_cut_as_drawn(area: Rect)
    requires
        area.x + area.width <= u16::MAX,
        area.y + area.height <= u16::MAX,
        area.width > 32,
        area.height > 1,
    ensures
        ({
            let parts = frame_areas(area);
            let size = inner_size(parts.main);
            &&& parts.sidebar == (Rect {
                x: area.x,
                y: area.y,
                width: 32,
                height: (area.height - 1) as u16,
            })
            &&& parts.main == (Rect {
                x: (area.x + 32) as u16,
                y: area.y,
                width: (area.width - 32) as u16,
                height: (area.height - 1) as u16,
            })
            &&& parts.status == (Rect {
                x: area.x,
                y: (area.y + area.height - 1) as u16,
                width: area.width,
                height: 1,
            })
            &&& area.height >= 11 ==> size.rows == area.height - 3
            &&& area.height < 11 ==> size.rows == 8
            &&& area.width >= 42 ==> size.cols == area.width - 34
            &&& area.width < 42 ==> size.cols == 8
        }),
{
}

/// A point is in an area from its corner on, for its width and its height.
pub proof fn an_area_holds_its_points(area: Rect, column: u16, row: u16)
    requires
        area.x + area.width <= u16::MAX,
        area.y + area.height <= u16::MAX,
    ensures
        area.holds(column, row) <==> area.x <= column < area.x + area.width && area.y <= row
            < area.y + area.height,
{
}

/// A time is later by the given milliseconds, as far as time goes; a deadline is due
/// from its time on; and the earlier of two deadlines comes first.
pub proof fn times_are_counted_in_milliseconds(a: Moment, b: Moment, millis: u64)
    ensures
        a.nanos + millis * 1_000_000 <= u64::MAX ==> a.later(millis).nanos == a.nanos + millis
            * 1_000_000,
        a.nanos + millis * 1_000_000 > u64::MAX ==> a.later(millis).nanos == u64::MAX,
        is_due(Some(a), b) <==> a.nanos <= b.nanos,
        !is_due(None, b),
        a.is_past(b, millis) <==> a.nanos - b.nanos >= millis * 1_000_000,
        a.nanos <= b.nanos ==> earliest(Some(a), Some(b)) == Some(a),
        b.nanos < a.nanos ==> earliest(Some(a), Some(b)) == Some(b),
        earliest(Some(a), None) == Some(a),
        earliest(None, Some(a)) == Some(a),
        earliest(None, None) is None,
{
}

/// A program that asks for the colors of the terminal gets those of the host, or of
/// a dark terminal where the host's are not known.
pub proof fn color_queries_get_the_hosts_colors(host: HostColors)
    ensures
        query_color(NAMED_BACKGROUND as int, Some(host)) == host.background,
        query_color(NAMED_FOREGROUND as int, Some(host)) == host.foreground,
        query_color(NAMED_BACKGROUND as int, None) == (Rgb { r: 0x12, g: 0x12, b: 0x12 }),
        query_color(NAMED_FOREGROUND as int, None) == (Rgb { r: 0xd0, g: 0xd0, b: 0xd0 }),
{
}

/// The first sixteen colors are those of xterm: the eight dark ones, black, red,
/// green, yellow, blue, magenta, cyan and gray, and then the eight bright ones.
pub proof fn the_named_colors_are_those_of_xterm(host: Option<HostColors>)
    ensures
        query_color(0, host) == (Rgb { r: 0, g: 0, b: 0 }),
        query_color(1, host) == (Rgb { r: 0x80, g: 0, b: 0 }),
        query_color(2, host) == (Rgb { r: 0, g: 0x80, b: 0 }),
        query_color(3, host) == (Rgb { r: 0x80, g: 0x80, b: 0 }),
        query_color(4, host) == (Rgb { r: 0, g: 0, b: 0x80 }),
        query_color(5, host) == (Rgb { r: 0x80, g: 0, b: 0x80 }),
        query_color(6, host) == (Rgb { r: 0, g: 0x80, b: 0x80 }),
        query_color(7, host) == (Rgb { r: 0xc0, g: 0xc0, b: 0xc0 }),
        query_color(8, host) == (Rgb { r: 0x80, g: 0x80, b: 0x80 }),
        query_color(9, host) == (Rgb { r: 0xff, g: 0, b: 0 }),
        query_color(10, host) == (Rgb { r: 0, g: 0xff, b: 0 }),
        query_color(11, host) == (Rgb { r: 0xff, g: 0xff, b: 0 }),
        query_color(12, host) == (Rgb { r: 0, g: 0, b: 0xff }),
        query_color(13, host) == (Rgb { r: 0xff, g: 0, b: 0xff }),
        query_color(14, host) == (Rgb { r: 0, g: 0xff, b: 0xff }),
        query_color(15, host) == (Rgb { r: 0xff, g: 0xff, b: 0xff }),
{
}

/// The level of a step of the color cube: 0, 95, 135, 175, 215 and 255.
pub open spec fn step_level(step: int) -> u8 {
    if step == 0 {
        0
    } else if step == 1 {
        95
    } else if step == 2 {
        135
    } else if step == 3 {
        175
    } else if step == 4 {
        215
    } else {
        255
    }
}

/// The colors from 16 on are xterm's cube of six steps for red, green and blue, in
/// this order, and those from 232 on its 24 grays from 8 in steps of ten.
pub proof fn the_numbered_colors_are_those_of_xterm(
    r: int,
    g: int,
    b: int,
    step: int,
    host: Option<HostColors>,
)
    requires
        0 <= r < 6,
        0 <= g < 6,
        0 <= b < 6,
        0 <= step < 24,
    ensures
        query_color(16 + 36 * r + 6 * g + b, host) == (Rgb {
            r: step_level(r),
            g: step_level(g),
            b: step_level(b),
        }),
        query_color(232 + step, host) == (Rgb {
            r: (8 + 10 * step) as u8,
            g: (8 + 10 * step) as u8,
            b: (8 + 10 * step) as u8,
        }),
{
    let offset = 36 * r + 6 * g + b;
    assert(offset / 36 == r && (offset / 6) % 6 == g && offset % 6 == b) by {
        assert(offset / 36 == r);
        assert(offset / 6 == 6 * r + g);
        assert((6 * r + g) % 6 == g);
        assert(offset % 6 == b);
    }
}

/// The clipboard is written by the platform's own tool: `pbcopy` on a Mac;
/// elsewhere on Unix `wl-copy` under Wayland and then `xclip` and `xsel` under X11;
/// and in a remote session by no tool. The first that succeeds is the last one run.
pub proof fn the_clipboard_tools_are_tried_in_order(environment: ClipboardEnvironment)
    ensures
        ({
            let none = Seq::<bool>::empty();
            let once = none.push(false);
            let remote = environment.ssh_connection || environment.ssh_tty;
            let unix = !remote && environment.platform == Platform::Unix;
            &&& remote ==> next_step(environment, none) == ClipboardStep::Unavailable
            &&& !remote && environment.platform == Platform::MacOs ==> next_step(environment, none)
                == ClipboardStep::Run(ClipboardCommand::PbCopy)
            &&& !remote && environment.platform == Platform::Elsewhere ==> next_step(
                environment,
                none,
            ) == ClipboardStep::Unavailable
            &&& unix && environment.wayland ==> next_step(environment, none)
                == ClipboardStep::Run(ClipboardCommand::WlCopy)
            &&& unix && environment.wayland && environment.x11 ==> next_step(environment, once)
                == ClipboardStep::Run(ClipboardCommand::XClip)
            &&& unix && environment.wayland && environment.x11 ==> next_step(
                environment,
                once.push(false),
            ) == ClipboardStep::Run(ClipboardCommand::XSel)
            &&& unix && !environment.wayland && environment.x11 ==> next_step(environment, none)
                == ClipboardStep::Run(ClipboardCommand::XClip)
            &&& unix && !environment.wayland && environment.x11 ==> next_step(environment, once)
                == ClipboardStep::Run(ClipboardCommand::XSel)
            &&& unix && !environment.wayland && !environment.x11 ==> next_step(environment, none)
                == ClipboardStep::Unavailable
        }),
{
}

/// A tool that succeeded ends the search; one that failed last ends it in vain.
pub proof fn a_written_clipboard_is_written_once(
    environment: ClipboardEnvironment,
    outcomes: Seq<bool>,
)
    requires
        !environment.ssh_connection,
        !environment.ssh_tty,
    ensures
        next_step(environment, outcomes.push(true)) == ClipboardStep::Written,
        (forall|i: int| 0 <= i < outcomes.len() ==> !#[trigger] outcomes[i]) && outcomes.len() >= 3
            ==> next_step(environment, outcomes) == ClipboardStep::Unavailable,
{
    assert(outcomes.push(true)[outcomes.len() as int]);
    crate::clipboard::every_tool_is_tried_at_most_once(environment, outcomes);
}

proof fn pieces_split(path: Seq<char>, name: Seq<char>)
    requires
        forall|i: int| 0 <= i < name.len() ==> #[trigger] name[i] != '/',
    ensures
        pieces(path).len() > 0,
        pieces(path.push('/') + name) == pieces(path).push(name),
    decreases name.len(),
{
    some_piece(path);
    let whole = path.push('/') + name;
    if name.len() == 0 {
        assert(name =~= Seq::<char>::empty());
        assert(whole =~= path.push('/'));
        assert(whole.drop_last() =~= path);
        assert(pieces(whole) =~= pieces(path).push(name));
    } else {
        let rest = name.drop_last();
        assert forall|i: int| 0 <= i < rest.len() implies #[trigger] rest[i] != '/' by {
            assert(rest[i] == name[i]);
        }
        pieces_split(path, rest);
        assert(whole.drop_last() =~= path.push('/') + rest);
        assert(whole.last() == name.last());
        assert(name[name.len() - 1] != '/');
        let before = pieces(path).push(rest);
        assert(before.drop_last() =~= pieces(path));
        assert(before.last().push(name.last()) =~= name);
        assert(pieces(whole) =~= pieces(path).push(name));
    }
}

proof fn some_piece(path: Seq<char>)
    ensures
        pieces(path).len() > 0,
    decreases path.len(),
{
    if path.len() > 0 {
        some_piece(path.drop_last());
    }
}

/// A path goes on by a name after a slash: the name is its last component. A slash
/// at the end, a doubled slash and a dot in the middle add none, and so do not make
/// another place of it.
pub proof fn a_name_is_one_more_component(path: Seq<char>, name: Seq<char>)
    requires
        forall|i: int| 0 <= i < name.len() ==> #[trigger] name[i] != '/',
    ensures
        name.len() > 0 && name != seq!['.'] ==> components(path.push('/') + name) == components(
            path,
        ).push(name),
        name.len() == 0 || name == seq!['.'] ==> components(path.push('/') + name) == components(
            path,
        ),
        path.len() > 0 ==> same_path(path.push('/'), path),
        path.len() > 0 ==> same_path(path.push('/').push('.'), path),
        same_path(path, path),
{
    reveal(components);
    pieces_split(path, name);
    assert(pieces(path).push(name).drop_last() =~= pieces(path));
    let none = Seq::<char>::empty();
    pieces_split(path, none);
    assert(path.push('/') + none =~= path.push('/'));
    assert(pieces(path).push(none).drop_last() =~= pieces(path));
    let dot = seq!['.'];
    pieces_split(path, dot);
    assert(path.push('/') + dot =~= path.push('/').push('.'));
    assert(pieces(path).push(dot).drop_last() =~= pieces(path));
}

/// Two names in one folder are two places, as are a name in two folders and a path
/// from the root and one from here.
pub proof fn different_names_are_different_places(
    path: Seq<char>,
    other: Seq<char>,
    name: Seq<char>,
    another: Seq<char>,
)
    requires
        forall|i: int| 0 <= i < name.len() ==> #[trigger] name[i] != '/',
        forall|i: int| 0 <= i < another.len() ==> #[trigger] another[i] != '/',
        name.len() > 0,
        another.len() > 0,
        name != seq!['.'],
        another != seq!['.'],
    ensures
        same_path(path.push('/') + name, path.push('/') + another) ==> name == another,
        path.len() > 0 && other.len() > 0 ==> same_path(
            path.push('/') + name,
            other.push('/') + name,
        ) == same_path(path, other),
        path.len() > 0 ==> !same_path(path.push('/') + name, path),
        path.len() > 0 && path[0] != '/' ==> !same_path(path, seq!['/'] + path),
        same_path(path, other) == same_path(other, path),
{
    a_name_is_one_more_component(path, name);
    a_name_is_one_more_component(path, another);
    a_name_is_one_more_component(other, name);
    assert(components(path).push(name).last() == name);
    assert(components(path).push(another).last() == another);
    assert(components(path).push(name).drop_last() =~= components(path));
    assert(components(other).push(name).drop_last() =~= components(other));
    assert(components(path).push(name).len() == components(path).len() + 1);
    if path.len() > 0 {
        assert((path.push('/') + name)[0] == path[0]);
    }
    if other.len() > 0 {
        assert((other.push('/') + name)[0] == other[0]);
    }
    assert((seq!['/'] + path)[0] == '/');
}

/// A relative path is joined to its folder by one slash; an absolute one stands for
/// itself.
pub proof fn a_joined_path_lies_in_its_folder(base: Seq<char>, path: Seq<char>)
    ensures
        path.len() > 0 && path[0] == '/' ==> path_join(base, path) == path,
        !(path.len() > 0 && path[0] == '/') && base.len() > 0 && base.last() != '/' ==> path_join(
            base,
            path,
        ) == base + seq!['/'] + path,
        !(path.len() > 0 && path[0] == '/') && base.len() > 0 && base.last() == '/' ==> path_join(
            base,
            path,
        ) == base + path,
        !(path.len() > 0 && path[0] == '/') && base.len() == 0 ==> path_join(base, path) == path,
{
    if base.len() > 0 && base.last() != '/' {
        assert(base.push('/') + path =~= base + seq!['/'] + path);
    }
    if base.len() == 0 {
        assert(base + path =~= path);
    }
}

/// A config is called after the folder that it stands in.
pub proof fn a_config_is_called_after_its_folder(
    root: Seq<char>,
    folder: Seq<char>,
    file: Seq<char>,
)
    requires
        forall|i: int| 0 <= i < folder.len() ==> #[trigger] folder[i] != '/',
        forall|i: int| 0 <= i < file.len() ==> #[trigger] file[i] != '/',
        folder.len() > 0,
        file.len() > 0,
        file != seq!['.'],
        folder != seq!['.'],
    ensures
        folder != seq!['.', '.'] ==> label_of(root.push('/') + folder.push('/') + file) == folder,
        folder == seq!['.', '.'] ==> label_of(root.push('/') + folder.push('/') + file)
            == "muster"@,
{
    let inside = root.push('/') + folder;
    a_name_is_one_more_component(root, folder);
    a_name_is_one_more_component(inside, file);
    assert(root.push('/') + folder.push('/') + file =~= inside.push('/') + file);
    let parts = components(inside.push('/') + file);
    assert(parts == components(root).push(folder).push(file));
    assert(parts[parts.len() - 2] == folder);
}

/// The folder of a file has the file's components but the last, from the same
/// root.
pub proof fn the_folder_of_a_file_is_all_but_its_name(folder: Seq<char>, file: Seq<char>)
    requires
        forall|i: int| 0 <= i < file.len() ==> #[trigger] file[i] != '/',
        file.len() > 0,
        file != seq!['.'],
    ensures
        parent_of(folder.push('/') + file) == Some(
            crate::location::path_through(
                is_absolute(folder.push('/') + file),
                components(folder),
            ),
        ),
{
    a_name_is_one_more_component(folder, file);
    assert(components(folder).push(file).drop_last() =~= components(folder));
}

} // verus!
