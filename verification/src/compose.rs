//! Frame composition: from a quote, a layout profile and the frame
//! geometry to a tree of draw commands.
//!
//! The frame is an outer bordered panel; inside it a vertical split
//! reserves the bulk for content over a thin footer strip; the content
//! row splits half and half into an image pane and an info pane; the
//! info pane is split into leading-blank, text-body and trailing-blank
//! regions sized per the profile. Composition is a pure transform: no
//! clock, no network, no terminal.

use vstd::prelude::*;
use vstd::string::StringExecFns;
use crate::blit::{blit, blit_cells, CellGridModel, RasterImage, RasterModel};
use crate::geom::{
    inner_rect,
    rect_wf,
    spec_inner,
    spec_split_h_half,
    spec_split_regions,
    spec_split_v,
    split_h_half,
    split_regions,
    split_v_pct,
    Rect,
};
use crate::layout::LayoutProfile;
use crate::num::{fixed_text, format_fixed, FixedNum};
use crate::quote::Quote;
use crate::style::{placeholder_text, style, styled, ColorClass, StyledLine, StyledLineModel};

verus! {

/// Fraction digits for a positive change, which also gets a plus.
pub const CHANGE_DECIMALS_POSITIVE: u8 = 5;

/// Fraction digits for a zero or negative change.
pub const CHANGE_DECIMALS_NONPOSITIVE: u8 = 6;

/// Fraction digits of the price line.
pub const PRICE_DECIMALS: u8 = 5;

/// Percent of the inner frame the content row keeps; the rest is the
/// footer strip.
pub const CONTENT_PCT: u16 = 88;

/// How text is aligned within its region.
#[derive(Clone, Copy, PartialEq, Eq, Structural, Debug)]
pub enum Align {
    Left,
    Center,
}

/// One node of the per-frame draw tree, in paint order: a bordered
/// panel with a centered title, a block of styled text lines, or a
/// grid of blitted image cells.
pub enum DrawCommand {
    Panel { rect: Rect, title: String },
    Text { rect: Rect, lines: Vec<StyledLine>, align: Align },
    Image { rect: Rect, rows: u16, cols: u16, cells: Vec<crate::blit::Cell> },
}

/// Mathematical model of a draw command.
#[verifier::ext_equal]
pub enum DrawCommandModel {
    Panel { rect: Rect, title: Seq<char> },
    Text { rect: Rect, lines: Seq<StyledLineModel>, align: Align },
    Image { rect: Rect, grid: CellGridModel },
}

impl View for DrawCommand {
    type V = DrawCommandModel;

    open spec fn view(&self) -> DrawCommandModel {
        match self {
            DrawCommand::Panel { rect, title } => DrawCommandModel::Panel {
                rect: *rect,
                title: title@,
            },
            DrawCommand::Text { rect, lines, align } => DrawCommandModel::Text {
                rect: *rect,
                lines: lines@.map_values(|l: StyledLine| l@),
                align: *align,
            },
            DrawCommand::Image { rect, rows, cols, cells } => DrawCommandModel::Image {
                rect: *rect,
                grid: CellGridModel { rows: *rows, cols: *cols, cells: cells@ },
            },
        }
    }
}

/// The ephemeral per-frame tree of draw commands, handed to the
/// backend for one paint and not kept beyond it.
pub struct FrameTree {
    pub commands: Vec<DrawCommand>,
}

impl View for FrameTree {
    type V = Seq<DrawCommandModel>;

    open spec fn view(&self) -> Seq<DrawCommandModel> {
        self.commands@.map_values(|c: DrawCommand| c@)
    }
}

/// Title of the outer panel.
pub open spec fn title_text() -> Seq<char> {
    "Nanoterm by Kurtsley"@
}

/// Title of the info panel.
pub open spec fn info_title_text() -> Seq<char> {
    "Info"@
}

/// Label of the price line.
pub open spec fn price_label() -> Seq<char> {
    "Price: $"@
}

/// Label of the one-hour change line.
pub open spec fn change_1h_label() -> Seq<char> {
    "Change 1h: % "@
}

/// Label of the day change line.
pub open spec fn change_24h_label() -> Seq<char> {
    "Change 24h: % "@
}

/// The help hint the footer always shows.
pub open spec fn footer_text() -> Seq<char> {
    "press 'q' to exit"@
}

/// The credit line under the footer hint.
pub open spec fn credit_text() -> Seq<char> {
    "made with tui-rs - https://github.com/fdehau/tui-rs"@
}

/// The footer strip's lines: the quit hint, a blank separator, and the
/// credit.
pub open spec fn footer_lines_model() -> Seq<StyledLineModel> {
    seq![
        StyledLineModel { text: footer_text(), class: ColorClass::Informational },
        blank_line(),
        StyledLineModel { text: credit_text(), class: ColorClass::Informational },
    ]
}

/// The degenerate profile's notice.
pub open spec fn notice_text() -> Seq<char> {
    "Terminal too small!"@
}

/// An empty separator line.
pub open spec fn blank_line() -> StyledLineModel {
    StyledLineModel { text: Seq::empty(), class: ColorClass::Informational }
}

/// The price line: informational color, fixed decimals, placeholder
/// when the price is not finite.
pub open spec fn price_line_model(price: FixedNum) -> StyledLineModel {
    match price {
        FixedNum::Finite(m) => StyledLineModel {
            text: price_label() + fixed_text(m as int, PRICE_DECIMALS as nat),
            class: ColorClass::Informational,
        },
        FixedNum::NonFinite => StyledLineModel {
            text: price_label() + placeholder_text(),
            class: ColorClass::Informational,
        },
    }
}

/// The text body, top to bottom: price, a blank separator, the day
/// change, and -- only when the profile shows it and the quote has it
/// -- a blank separator and the one-hour change.
pub open spec fn body_lines_model(q: Quote, p: LayoutProfile) -> Seq<StyledLineModel> {
    let head = seq![
        price_line_model(q.price),
        blank_line(),
        styled(
            q.change_24h,
            change_24h_label(),
            CHANGE_DECIMALS_POSITIVE as nat,
            CHANGE_DECIMALS_NONPOSITIVE as nat,
        ),
    ];
    if p.show_change_1h && q.change_1h is Some {
        head + seq![
            blank_line(),
            styled(
                q.change_1h->0,
                change_1h_label(),
                CHANGE_DECIMALS_POSITIVE as nat,
                CHANGE_DECIMALS_NONPOSITIVE as nat,
            ),
        ]
    } else {
        head
    }
}

/// The model of an optional logo image.
pub open spec fn logo_model(logo: Option<&RasterImage>) -> Option<RasterModel> {
    match logo {
        Some(img) => Some(img@),
        None => None,
    }
}

/// The whole frame as draw-command models, in paint order.
pub open spec fn compose_model(
    q: Quote,
    p: LayoutProfile,
    geom: Rect,
    logo: Option<RasterModel>,
) -> Seq<DrawCommandModel> {
    let outer = DrawCommandModel::Panel { rect: geom, title: title_text() };
    let inner = spec_inner(geom, 2);
    if p.too_small {
        seq![
            outer,
            DrawCommandModel::Text {
                rect: inner,
                lines: seq![
                    StyledLineModel { text: notice_text(), class: ColorClass::Informational },
                ],
                align: Align::Center,
            },
        ]
    } else {
        let split = spec_split_v(inner, CONTENT_PCT as u16);
        let content_inner = spec_inner(split.0, 2);
        let panes = spec_split_h_half(content_inner);
        let image_inner = spec_inner(panes.0, 1);
        let info_inner = spec_inner(panes.1, 1);
        let regions = spec_split_regions(
            info_inner,
            p.leading_blank_lines,
            p.trailing_blank_lines,
        );
        seq![outer, DrawCommandModel::Panel { rect: panes.0, title: Seq::empty() }] + (match logo {
            Some(img) => seq![
                DrawCommandModel::Image {
                    rect: image_inner,
                    grid: CellGridModel {
                        rows: image_inner.height,
                        cols: image_inner.width,
                        cells: blit_cells(img, image_inner.height, image_inner.width),
                    },
                },
            ],
            None => Seq::<DrawCommandModel>::empty(),
        }) + seq![
            DrawCommandModel::Panel { rect: panes.1, title: info_title_text() },
            DrawCommandModel::Text {
                rect: regions.1,
                lines: body_lines_model(q, p),
                align: Align::Center,
            },
            DrawCommandModel::Text {
                rect: split.1,
                lines: footer_lines_model(),
                align: Align::Center,
            },
        ]
    }
}

/// The text lines a draw command carries; panels and images carry
/// none.
pub open spec fn lines_of(c: DrawCommandModel) -> Seq<StyledLineModel> {
    match c {
        DrawCommandModel::Text { lines, .. } => lines,
        _ => Seq::empty(),
    }
}

/// Sequences that differ at an index are not prefix-related.
proof fn lemma_prefix_diff(a: Seq<char>, b: Seq<char>, k: int)
    requires
        0 <= k < a.len(),
        k < b.len(),
        a[k] != b[k],
    ensures
        !a.is_prefix_of(b),
{
    if a.is_prefix_of(b) {
        assert(a[k] == b.subrange(0, a.len() as int)[k]);
    }
}

/// No line of the text body starts with the one-hour label when the
/// quote has no one-hour change, whatever the profile says.
proof fn lemma_body_lines_no_1h(q: Quote, p: LayoutProfile)
    requires
        q.change_1h is None,
    ensures
        forall|j: int|
            0 <= j < body_lines_model(q, p).len() ==> !change_1h_label().is_prefix_of(
                #[trigger] body_lines_model(q, p)[j].text,
            ),
{
    reveal_strlit("Change 1h: % ");
    reveal_strlit("Change 24h: % ");
    reveal_strlit("Price: $");
    let label = change_1h_label();
    let body = body_lines_model(q, p);
    assert(body.len() == 3);
    let t0 = body[0].text;
    assert(t0[0] == 'P') by {
        match q.price {
            FixedNum::Finite(m) => {
                assert(t0 == price_label() + fixed_text(m as int, PRICE_DECIMALS as nat));
            },
            FixedNum::NonFinite => {
                assert(t0 == price_label() + placeholder_text());
            },
        }
    }
    lemma_prefix_diff(label, t0, 0);
    assert(!label.is_prefix_of(body[1].text));
    let t2 = body[2].text;
    assert(t2[7] == '2') by {
        let l24 = change_24h_label();
        match q.change_24h {
            FixedNum::Finite(m) => {
                if m > 0 {
                    assert(t2 == l24 + seq!['+'] + fixed_text(
                        m as int,
                        CHANGE_DECIMALS_POSITIVE as nat,
                    ));
                    assert(t2[7] == (l24 + seq!['+'])[7]);
                } else if m < 0 {
                    assert(t2 == l24 + fixed_text(m as int, CHANGE_DECIMALS_NONPOSITIVE as nat));
                } else {
                    assert(t2 == l24 + fixed_text(0, CHANGE_DECIMALS_NONPOSITIVE as nat));
                }
            },
            FixedNum::NonFinite => {
                assert(t2 == l24 + placeholder_text());
            },
        }
    }
    lemma_prefix_diff(label, t2, 7);
}

/// Composing a frame for a quote without a one-hour change never
/// references the one-hour change: no text line anywhere in the tree
/// starts with the one-hour label, regardless of the profile.
pub proof fn lemma_no_change_1h_when_absent(
    q: Quote,
    p: LayoutProfile,
    geom: Rect,
    logo: Option<RasterModel>,
)
    requires
        q.change_1h is None,
    ensures
        forall|i: int, j: int|
            0 <= i < compose_model(q, p, geom, logo).len() && 0 <= j < lines_of(
                compose_model(q, p, geom, logo)[i],
            ).len() ==> !change_1h_label().is_prefix_of(
                (#[trigger] lines_of(compose_model(q, p, geom, logo)[i])[j]).text,
            ),
{
    reveal_strlit("Change 1h: % ");
    reveal_strlit("press 'q' to exit");
    reveal_strlit("made with tui-rs - https://github.com/fdehau/tui-rs");
    reveal_strlit("Terminal too small!");
    let label = change_1h_label();
    let cmds = compose_model(q, p, geom, logo);
    lemma_body_lines_no_1h(q, p);
    lemma_prefix_diff(label, footer_text(), 0);
    lemma_prefix_diff(label, credit_text(), 0);
    lemma_prefix_diff(label, notice_text(), 0);
    assert forall|i: int, j: int|
        0 <= i < cmds.len() && 0 <= j < lines_of(cmds[i]).len() implies !label.is_prefix_of(
        lines_of(cmds[i])[j].text,
    ) by {
        if p.too_small {
            assert(cmds.len() == 2);
            if i == 1 {
                assert(lines_of(cmds[1])[j].text == notice_text());
            }
        } else {
            if logo is Some {
                assert(cmds.len() == 6);
                if i == 4 {
                    assert(lines_of(cmds[4]) == body_lines_model(q, p));
                } else if i == 5 {
                    assert(lines_of(cmds[5]) == footer_lines_model());
                } else {
                    assert(lines_of(cmds[i]).len() == 0);
                }
            } else {
                assert(cmds.len() == 5);
                if i == 3 {
                    assert(lines_of(cmds[3]) == body_lines_model(q, p));
                } else if i == 4 {
                    assert(lines_of(cmds[4]) == footer_lines_model());
                } else {
                    assert(lines_of(cmds[i]).len() == 0);
                }
            }
        }
    }
}

/// Builds the price line.
fn price_line(price: FixedNum) -> (r: StyledLine)
    ensures
        r@ == price_line_model(price),
{
    let mut text = String::from_str("Price: $");
    match price {
        FixedNum::Finite(m) => {
            let digits = format_fixed(m, PRICE_DECIMALS);
            text.append(digits.as_str());
        },
        FixedNum::NonFinite => {
            text.append("\u{2014}");
            proof {
                assert(text@ == price_label() + placeholder_text());
            }
        },
    }
    StyledLine { text, class: ColorClass::Informational }
}

/// Builds the text body for a quote under a profile.
fn body_lines(q: &Quote, p: &LayoutProfile) -> (v: Vec<StyledLine>)
    ensures
        v@.map_values(|l: StyledLine| l@) == body_lines_model(*q, *p),
{
    let mut v: Vec<StyledLine> = Vec::new();
    v.push(price_line(q.price));
    v.push(StyledLine { text: String::new(), class: ColorClass::Informational });
    v.push(
        style(q.change_24h, "Change 24h: % ", CHANGE_DECIMALS_POSITIVE, CHANGE_DECIMALS_NONPOSITIVE),
    );
    if p.show_change_1h {
        match q.change_1h {
            Some(c1) => {
                v.push(StyledLine { text: String::new(), class: ColorClass::Informational });
                v.push(
                    style(
                        c1,
                        "Change 1h: % ",
                        CHANGE_DECIMALS_POSITIVE,
                        CHANGE_DECIMALS_NONPOSITIVE,
                    ),
                );
            },
            None => {},
        }
    }
    proof {
        assert(v@.map_values(|l: StyledLine| l@) =~= body_lines_model(*q, *p));
    }
    v
}

/// Composes the frame for one quote: pure, total for any profile and
/// geometry, and fully determined by its arguments.
pub fn compose(q: &Quote, p: &LayoutProfile, geom: Rect, logo: Option<&RasterImage>) -> (t:
    FrameTree)
    requires
        rect_wf(geom),
        logo is Some ==> logo->0.wf(),
    ensures
        t@ == compose_model(*q, *p, geom, logo_model(logo)),
{
    let mut commands: Vec<DrawCommand> = Vec::new();
    commands.push(
        DrawCommand::Panel { rect: geom, title: String::from_str("Nanoterm by Kurtsley") },
    );
    let inner = inner_rect(geom, 2);
    if p.too_small {
        let mut lines: Vec<StyledLine> = Vec::new();
        lines.push(
            StyledLine {
                text: String::from_str("Terminal too small!"),
                class: ColorClass::Informational,
            },
        );
        commands.push(DrawCommand::Text { rect: inner, lines, align: Align::Center });
        let t = FrameTree { commands };
        proof {
            assert(t@ =~~= compose_model(*q, *p, geom, logo_model(logo)));
        }
        t
    } else {
        let split = split_v_pct(inner, CONTENT_PCT);
        let content_inner = inner_rect(split.0, 2);
        let panes = split_h_half(content_inner);
        let image_inner = inner_rect(panes.0, 1);
        let info_inner = inner_rect(panes.1, 1);
        let regions = split_regions(info_inner, p.leading_blank_lines, p.trailing_blank_lines);
        commands.push(DrawCommand::Panel { rect: panes.0, title: String::new() });
        match logo {
            Some(img) => {
                let grid = blit(img, image_inner.height, image_inner.width);
                commands.push(
                    DrawCommand::Image {
                        rect: image_inner,
                        rows: grid.rows,
                        cols: grid.cols,
                        cells: grid.cells,
                    },
                );
            },
            None => {},
        }
        commands.push(DrawCommand::Panel { rect: panes.1, title: String::from_str("Info") });
        let body = body_lines(q, p);
        commands.push(DrawCommand::Text { rect: regions.1, lines: body, align: Align::Center });
        let mut footer_lines: Vec<StyledLine> = Vec::new();
        footer_lines.push(
            StyledLine {
                text: String::from_str("press 'q' to exit"),
                class: ColorClass::Informational,
            },
        );
        footer_lines.push(StyledLine { text: String::new(), class: ColorClass::Informational });
        footer_lines.push(
            StyledLine {
                text: String::from_str("made with tui-rs - https://github.com/fdehau/tui-rs"),
                class: ColorClass::Informational,
            },
        );
        commands.push(
            DrawCommand::Text { rect: split.1, lines: footer_lines, align: Align::Center },
        );
        let t = FrameTree { commands };
        proof {
            assert(t@ =~~= compose_model(*q, *p, geom, logo_model(logo)));
        }
        t
    }
}

} // verus!
