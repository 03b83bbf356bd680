use vstd::prelude::*;

use crate::config::{lookup, spec_lookup, Config, ConfigView};
use crate::locator::{find_parent, find_workspace, parent_in_list, workspace_for, LabelError};
use crate::numfmt::{format_i32, spec_decimal};
use crate::tree::{Kind, Layout, Node};

verus! {

/// The application identity of a leaf window: its primary identifier, or
/// the first non-empty fallback among class and instance, or empty.
pub open spec fn spec_win_name(win: Node) -> Seq<char> {
    match win.app_id {
        Some(s) => s@,
        None => spec_fallback_name(win),
    }
}

/// The first non-empty fallback identifier among class and instance.
pub open spec fn spec_fallback_name(win: Node) -> Seq<char> {
    match win.window_class {
        Some(c) => if c@.len() > 0 {
            c@
        } else {
            spec_instance_name(win)
        },
        None => spec_instance_name(win),
    }
}

/// The instance identifier, when present and non-empty.
pub open spec fn spec_instance_name(win: Node) -> Seq<char> {
    match win.window_instance {
        Some(i) => if i@.len() > 0 {
            i@
        } else {
            Seq::empty()
        },
        None => Seq::empty(),
    }
}

fn instance_name<'a>(win: &'a Node) -> (r: &'a str)
    ensures
        r@ == spec_instance_name(*win),
{
    proof {
        reveal_strlit("");
        assert(""@ =~= Seq::<char>::empty());
    }
    match &win.window_instance {
        Some(i) => if !i.as_str().is_empty() {
            i.as_str()
        } else {
            ""
        },
        None => "",
    }
}

/// The application identity of `win`: `app_id`, or the first non-empty of
/// `window_class` and `window_instance`, or empty.
pub fn win_name<'a>(win: &'a Node) -> (r: &'a str)
    ensures
        r@ == spec_win_name(*win),
{
    match &win.app_id {
        Some(s) => s.as_str(),
        None => match &win.window_class {
            Some(c) => if !c.as_str().is_empty() {
                c.as_str()
            } else {
                instance_name(win)
            },
            None => instance_name(win),
        },
    }
}

/// The glyph standing for the application identified by `name`: the fixed
/// empty-workspace glyph when the identity is empty, the configured glyph
/// for the identity when one is configured, the unknown-application glyph
/// otherwise.
pub open spec fn spec_app_glyph(name: Seq<char>, cfg: ConfigView) -> Seq<char> {
    if name.len() == 0 {
        spec_lookup(cfg.icons, "empty_workspace"@, "\u{ff0b}"@)
    } else {
        spec_lookup(cfg.applications, name, spec_lookup(cfg.icons, "no_icon"@, "?"@))
    }
}

/// Resolves the application glyph for the identity `name` against the
/// configured application table and its built-in defaults.
pub fn resolve_app_glyph<'a>(name: &str, config: &'a Config) -> (g: &'a str)
    ensures
        g@ == spec_app_glyph(name@, config@),
{
    if name.is_empty() {
        lookup(&config.icons, "empty_workspace", "\u{ff0b}")
    } else {
        lookup(&config.applications, name, lookup(&config.icons, "no_icon", "?"))
    }
}

/// How many nodes of `s` carry an id other than `id`.
pub open spec fn count_other(s: Seq<Node>, id: i64) -> nat
    decreases s,
{
    if s.len() == 0 {
        0nat
    } else {
        (if s[0].id != id {
            1nat
        } else {
            0nat
        }) + count_other(s.drop_first(), id)
    }
}

fn count_floating_others(parent: &Node, id: i64) -> (c: usize)
    ensures
        c as nat == count_other(parent.floating_nodes@, id),
{
    let mut c: usize = 0;
    let mut j: usize = 0;
    proof {
        assert(parent.floating_nodes@.skip(0) =~= parent.floating_nodes@);
    }
    while j < parent.floating_nodes.len()
        invariant
            j <= parent.floating_nodes@.len(),
            c <= j,
            c as nat + count_other(parent.floating_nodes@.skip(j as int), id) == count_other(
                parent.floating_nodes@,
                id,
            ),
        decreases parent.floating_nodes@.len() - j,
    {
        proof {
            assert(parent.floating_nodes@.skip(j as int)[0] == parent.floating_nodes@[j as int]);
            assert(parent.floating_nodes@.skip(j as int).drop_first() =~= parent.floating_nodes@.skip(
                j as int + 1,
            ));
        }
        if parent.floating_nodes[j].id != id {
            c += 1;
        }
        j += 1;
    }
    c
}

/// The per-position bar sequence for a split of three or more panes: one
/// mark per sibling in order, the focused sibling's mark differing from
/// every other.
pub open spec fn spec_bars(s: Seq<Node>, id: i64, cfg: ConfigView) -> Seq<char>
    decreases s.len(),
{
    if s.len() == 0 {
        Seq::empty()
    } else {
        spec_bars(s.drop_last(), id, cfg) + (if s.last().id == id {
            spec_lookup(cfg.icons, "split_horizontal_focused"@, "\u{25ae}"@)
        } else {
            spec_lookup(cfg.icons, "split_horizontal_unfocused"@, "\u{25af}"@)
        })
    }
}

/// The glyph encoding the shape of the layout around `win`, whose direct
/// parent is `parent`. Decision order, first match wins: floating windows;
/// a window alone in its container; horizontal-split or tabbed parents (two
/// panes get a half glyph by position, more get one bar per pane);
/// vertical-split or stacked parents (two panes get a half glyph by
/// position, more get the single many-windows glyph); otherwise no glyph.
pub open spec fn spec_layout_glyph(win: Node, parent: Node, cfg: ConfigView) -> Seq<char> {
    if win.kind == Kind::FloatingContainer {
        if count_other(parent.floating_nodes@, win.id) == 0 {
            spec_lookup(cfg.icons, "floating"@, "\u{25aa}"@)
        } else {
            spec_lookup(cfg.icons, "floating_unfocused"@, "\u{25a3}"@)
        }
    } else if parent.nodes@.len() == 1 {
        spec_lookup(cfg.icons, "single_window"@, "\u{25a0}"@)
    } else if parent.layout == Layout::HorizontalSplit || parent.layout == Layout::Tabbed {
        if parent.nodes@.len() == 2 {
            if parent.nodes@[0].id == win.id {
                spec_lookup(cfg.icons, "split_horizontal_two_windows_focus_left"@, "\u{25e7}"@)
            } else {
                spec_lookup(cfg.icons, "split_horizontal_two_windows_focus_right"@, "\u{25e8}"@)
            }
        } else {
            spec_bars(parent.nodes@, win.id, cfg)
        }
    } else if parent.layout == Layout::VerticalSplit || parent.layout == Layout::Stacked {
        if parent.nodes@.len() == 2 {
            if parent.nodes@[0].id == win.id {
                spec_lookup(cfg.icons, "split_vertical_focus_top"@, "\u{2b12}"@)
            } else {
                spec_lookup(cfg.icons, "split_vertical_focus_bottom"@, "\u{2b13}"@)
            }
        } else {
            spec_lookup(
                cfg.icons,
                "split_vertical_many_windows"@,
                "<span font_size='24pt' baseline_shift='-3pt'>\u{eb6a}</span>"@,
            )
        }
    } else {
        Seq::empty()
    }
}

/// Resolves the layout glyph for `win` under `parent` against the
/// configured icon table and its built-in defaults.
pub fn resolve_layout_glyph(win: &Node, parent: &Node, config: &Config) -> (g: String)
    ensures
        g@ == spec_layout_glyph(*win, *parent, config@),
{
    if win.kind == Kind::FloatingContainer {
        if count_floating_others(parent, win.id) == 0 {
            lookup(&config.icons, "floating", "\u{25aa}").to_owned()
        } else {
            lookup(&config.icons, "floating_unfocused", "\u{25a3}").to_owned()
        }
    } else if parent.nodes.len() == 1 {
        lookup(&config.icons, "single_window", "\u{25a0}").to_owned()
    } else if parent.layout == Layout::HorizontalSplit || parent.layout == Layout::Tabbed {
        if parent.nodes.len() == 2 {
            if parent.nodes[0].id == win.id {
                lookup(
                    &config.icons,
                    "split_horizontal_two_windows_focus_left",
                    "\u{25e7}",
                ).to_owned()
            } else {
                lookup(
                    &config.icons,
                    "split_horizontal_two_windows_focus_right",
                    "\u{25e8}",
                ).to_owned()
            }
        } else {
            let mut bars = String::new();
            let mut j: usize = 0;
            proof {
                assert(parent.nodes@.take(0) =~= Seq::<Node>::empty());
            }
            while j < parent.nodes.len()
                invariant
                    j <= parent.nodes@.len(),
                    bars@ == spec_bars(parent.nodes@.take(j as int), win.id, config@),
                decreases parent.nodes@.len() - j,
            {
                proof {
                    assert(parent.nodes@.take(j as int + 1).drop_last() =~= parent.nodes@.take(
                        j as int,
                    ));
                    assert(parent.nodes@.take(j as int + 1).last() == parent.nodes@[j as int]);
                }
                if parent.nodes[j].id == win.id {
                    bars.append(lookup(&config.icons, "split_horizontal_focused", "\u{25ae}"));
                } else {
                    bars.append(lookup(&config.icons, "split_horizontal_unfocused", "\u{25af}"));
                }
                j += 1;
            }
            proof {
                assert(parent.nodes@.take(parent.nodes@.len() as int) =~= parent.nodes@);
            }
            bars
        }
    } else if parent.layout == Layout::VerticalSplit || parent.layout == Layout::Stacked {
        if parent.nodes.len() == 2 {
            if parent.nodes[0].id == win.id {
                lookup(&config.icons, "split_vertical_focus_top", "\u{2b12}").to_owned()
            } else {
                lookup(&config.icons, "split_vertical_focus_bottom", "\u{2b13}").to_owned()
            }
        } else {
            lookup(
                &config.icons,
                "split_vertical_many_windows",
                "<span font_size='24pt' baseline_shift='-3pt'>\u{eb6a}</span>",
            ).to_owned()
        }
    } else {
        String::new()
    }
}

/// The layout glyph wrapped in its configured markup style.
pub open spec fn spec_styled_layout(glyph: Seq<char>, cfg: ConfigView) -> Seq<char> {
    "<span "@ + spec_lookup(cfg.styles, "layout"@, "font_size='16pt' color='lightgreen'"@) + ">"@
        + glyph + "</span>"@
}

/// The composed markup label of a workspace: its number, then the styled
/// application glyph, then — only when the resolved window is not standing
/// in for the workspace itself — the styled layout glyph and the styled
/// window title.
pub open spec fn spec_compose_label(
    num: int,
    app_glyph: Seq<char>,
    layout_glyph: Seq<char>,
    title: Seq<char>,
    win_is_workspace: bool,
    cfg: ConfigView,
) -> Seq<char> {
    spec_decimal(num) + "<span "@ + spec_lookup(
        cfg.styles,
        "icon"@,
        "baseline_shift='superscript' font_size='12pt' color='lightgreen'"@,
    ) + ">"@ + app_glyph + "</span>"@ + (if win_is_workspace {
        Seq::<char>::empty()
    } else {
        " "@ + spec_styled_layout(layout_glyph, cfg) + " <span "@ + spec_lookup(
            cfg.styles,
            "name"@,
            "color='orange' baseline_shift='2pt'"@,
        ) + "> "@ + title + " </span>"@
    })
}

/// Builds the markup label of a workspace from its number, the resolved
/// glyphs, and the window title. `win_is_workspace` says that the resolved
/// window stands in for the whole workspace (a freshly created workspace
/// with no real focused leaf): then the layout and title suffix is left
/// off.
pub fn compose_label(
    num: i32,
    app_glyph: &str,
    layout_glyph: &str,
    title: &str,
    win_is_workspace: bool,
    config: &Config,
) -> (r: String)
    ensures
        r@ == spec_compose_label(
            num as int,
            app_glyph@,
            layout_glyph@,
            title@,
            win_is_workspace,
            config@,
        ),
{
    let mut s = format_i32(num);
    s.append("<span ");
    s.append(
        lookup(
            &config.styles,
            "icon",
            "baseline_shift='superscript' font_size='12pt' color='lightgreen'",
        ),
    );
    s.append(">");
    s.append(app_glyph);
    s.append("</span>");
    if !win_is_workspace {
        s.append(" ");
        s.append("<span ");
        s.append(lookup(&config.styles, "layout", "font_size='16pt' color='lightgreen'"));
        s.append(">");
        s.append(layout_glyph);
        s.append("</span>");
        s.append(" <span ");
        s.append(lookup(&config.styles, "name", "color='orange' baseline_shift='2pt'"));
        s.append("> ");
        s.append(title);
        s.append(" </span>");
    }
    proof {
        assert(s@ =~= spec_compose_label(
            num as int,
            app_glyph@,
            layout_glyph@,
            title@,
            win_is_workspace,
            config@,
        ));
    }
    s
}

/// The window title shown in the label: the node's name, or empty when it
/// has none.
pub open spec fn spec_title(win: Node) -> Seq<char> {
    match win.name {
        Some(t) => t@,
        None => Seq::empty(),
    }
}

/// The full rename command for the workspace of `win`, or the error that
/// aborts the cycle: `WorkspaceNotFound` when no workspace in `ws` holds
/// `win`, `MissingName` and `MissingNumber` when the workspace lacks its
/// label or number (a data-integrity fault of the snapshot source). A
/// window without a parent in the forest counts as its own parent.
pub open spec fn spec_compose_rename(ws: Seq<Node>, win: Node, cfg: ConfigView) -> Result<
    Seq<char>,
    LabelError,
> {
    match workspace_for(ws, win.id) {
        None => Err(LabelError::WorkspaceNotFound),
        Some(w) => match w.name {
            None => Err(LabelError::MissingName),
            Some(nm) => match w.num {
                None => Err(LabelError::MissingNumber),
                Some(num) => {
                    let parent = match parent_in_list(ws, win.id) {
                        Some(p) => p,
                        None => win,
                    };
                    let label = spec_compose_label(
                        num as int,
                        spec_app_glyph(spec_win_name(win), cfg),
                        spec_layout_glyph(win, parent, cfg),
                        spec_title(win),
                        w.id == win.id,
                        cfg,
                    );
                    Ok("rename workspace "@ + nm@ + " to "@ + label)
                },
            },
        },
    }
}

/// Runs one locate-resolve-compose cycle over a fresh list of workspaces:
/// finds the workspace and parent of `win`, resolves its glyphs, and
/// returns the command that renames the workspace to its new label.
pub fn compose_rename(workspaces: &Vec<Node>, win: &Node, config: &Config) -> (r: Result<
    String,
    LabelError,
>)
    ensures
        match r {
            Ok(s) => spec_compose_rename(workspaces@, *win, config@) == Ok::<
                Seq<char>,
                LabelError,
            >(s@),
            Err(e) => spec_compose_rename(workspaces@, *win, config@) == Err::<
                Seq<char>,
                LabelError,
            >(e),
        },
{
    let ws = match find_workspace(workspaces, win) {
        Ok(w) => w,
        Err(e) => {
            return Err(e);
        },
    };
    let ws_old_name: &str = match &ws.name {
        Some(nm) => nm.as_str(),
        None => {
            return Err(LabelError::MissingName);
        },
    };
    let ws_num: i32 = match ws.num {
        Some(n) => n,
        None => {
            return Err(LabelError::MissingNumber);
        },
    };
    let parent: &Node = match find_parent(workspaces, win) {
        Ok(p) => p,
        Err(_) => win,
    };
    let app_glyph = resolve_app_glyph(win_name(win), config);
    let layout_glyph = resolve_layout_glyph(win, parent, config);
    let title: &str = match &win.name {
        Some(t) => t.as_str(),
        None => "",
    };
    proof {
        reveal_strlit("");
        assert(""@ =~= Seq::<char>::empty());
    }
    let label = compose_label(ws_num, app_glyph, layout_glyph.as_str(), title, ws.id == win.id, config);
    let mut cmd = "rename workspace ".to_owned();
    cmd.append(ws_old_name);
    cmd.append(" to ");
    cmd.append(label.as_str());
    proof {
        assert(cmd@ =~= "rename workspace "@ + ws.name->Some_0@ + " to "@ + label@);
    }
    Ok(cmd)
}

/// Re-deriving the label is free of drift: two compositions from the same
/// unmodified snapshot and configuration yield byte-identical output.
pub proof fn lemma_compose_idempotent(
    ws: Seq<Node>,
    win: Node,
    cfg: ConfigView,
    r1: Result<Seq<char>, LabelError>,
    r2: Result<Seq<char>, LabelError>,
)
    requires
        r1 == spec_compose_rename(ws, win, cfg),
        r2 == spec_compose_rename(ws, win, cfg),
    ensures
        r1 == r2,
{
}

proof fn lemma_count_other_ids(s1: Seq<Node>, s2: Seq<Node>, id: i64)
    requires
        s1.len() == s2.len(),
        forall|i: int| 0 <= i < s1.len() ==> s1[i].id == s2[i].id,
    ensures
        count_other(s1, id) == count_other(s2, id),
    decreases s1.len(),
{
    if s1.len() > 0 {
        assert forall|i: int| 0 <= i < s1.drop_first().len() implies s1.drop_first()[i].id
            == s2.drop_first()[i].id by {
            assert(s1[i + 1].id == s2[i + 1].id);
        }
        lemma_count_other_ids(s1.drop_first(), s2.drop_first(), id);
    }
}

proof fn lemma_spec_bars_ids(s1: Seq<Node>, s2: Seq<Node>, id: i64, cfg: ConfigView)
    requires
        s1.len() == s2.len(),
        forall|i: int| 0 <= i < s1.len() ==> s1[i].id == s2[i].id,
    ensures
        spec_bars(s1, id, cfg) == spec_bars(s2, id, cfg),
    decreases s1.len(),
{
    if s1.len() > 0 {
        assert forall|i: int| 0 <= i < s1.drop_last().len() implies s1.drop_last()[i].id
            == s2.drop_last()[i].id by {
            assert(s1[i].id == s2[i].id);
        }
        lemma_spec_bars_ids(s1.drop_last(), s2.drop_last(), id, cfg);
    }
}

/// The layout glyph is local: it depends only on the window's id and kind,
/// the parent's layout, and the ids of the parent's tiled and floating
/// children in order. Reordering or reshaping unrelated parts of the
/// snapshot cannot change it.
pub proof fn lemma_layout_glyph_local(w1: Node, p1: Node, w2: Node, p2: Node, cfg: ConfigView)
    requires
        w1.id == w2.id,
        w1.kind == w2.kind,
        p1.layout == p2.layout,
        p1.nodes@.len() == p2.nodes@.len(),
        forall|i: int| 0 <= i < p1.nodes@.len() ==> p1.nodes@[i].id == p2.nodes@[i].id,
        p1.floating_nodes@.len() == p2.floating_nodes@.len(),
        forall|i: int|
            0 <= i < p1.floating_nodes@.len() ==> p1.floating_nodes@[i].id
                == p2.floating_nodes@[i].id,
    ensures
        spec_layout_glyph(w1, p1, cfg) == spec_layout_glyph(w2, p2, cfg),
{
    lemma_count_other_ids(p1.floating_nodes@, p2.floating_nodes@, w1.id);
    lemma_spec_bars_ids(p1.nodes@, p2.nodes@, w1.id, cfg);
}

} // verus!
