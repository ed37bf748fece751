//! Sign-driven styling of numeric deltas.
//!
//! A delta is rendered in one of four color classes: positive values
//! get a leading plus and the positive fraction-digit count, negative
//! values keep the sign the data carries and get the non-positive
//! count, zero is neutral, and values that are not finite are shown as
//! a placeholder in the informational class.

use vstd::prelude::*;
use vstd::string::StringExecFns;
use crate::num::{fixed_text, format_fixed, FixedNum, SCALE_DIGITS};

verus! {

/// The color class a styled line carries.
#[derive(Clone, Copy, PartialEq, Eq, Structural, Debug)]
pub enum ColorClass {
    Positive,
    Negative,
    Neutral,
    Informational,
}

/// One line of styled text, produced fresh per render.
#[derive(Clone, Debug)]
pub struct StyledLine {
    pub text: String,
    pub class: ColorClass,
}

/// Mathematical model of a styled line.
#[verifier::ext_equal]
pub struct StyledLineModel {
    pub text: Seq<char>,
    pub class: ColorClass,
}

impl View for StyledLine {
    type V = StyledLineModel;

    open spec fn view(&self) -> StyledLineModel {
        StyledLineModel { text: self.text@, class: self.class }
    }
}

/// The placeholder shown for a value that is not finite.
pub open spec fn placeholder_text() -> Seq<char> {
    "\u{2014}"@
}

/// The styled line for a delta: label, then the sign-driven text.
pub open spec fn styled(
    value: FixedNum,
    label: Seq<char>,
    decimals_positive: nat,
    decimals_nonpositive: nat,
) -> StyledLineModel {
    match value {
        FixedNum::NonFinite => StyledLineModel {
            text: label + placeholder_text(),
            class: ColorClass::Informational,
        },
        FixedNum::Finite(m) => if m > 0 {
            StyledLineModel {
                text: label + seq!['+'] + fixed_text(m as int, decimals_positive),
                class: ColorClass::Positive,
            }
        } else if m < 0 {
            StyledLineModel {
                text: label + fixed_text(m as int, decimals_nonpositive),
                class: ColorClass::Negative,
            }
        } else {
            StyledLineModel {
                text: label + fixed_text(0, decimals_nonpositive),
                class: ColorClass::Neutral,
            }
        },
    }
}

/// Styles a delta. Positive values are Positive with a leading plus
/// and `decimals_positive` fraction digits; negative values are
/// Negative with `decimals_nonpositive` digits and the sign the value
/// itself carries; zero is Neutral; a value that is not finite is
/// Informational with a placeholder.
pub fn style(value: FixedNum, label: &str, decimals_positive: u8, decimals_nonpositive: u8) -> (r:
    StyledLine)
    requires
        decimals_positive <= SCALE_DIGITS,
        decimals_nonpositive <= SCALE_DIGITS,
    ensures
        r@ == styled(value, label@, decimals_positive as nat, decimals_nonpositive as nat),
{
    let mut text = String::from_str(label);
    match value {
        FixedNum::NonFinite => {
            text.append("\u{2014}");
            proof {
                assert(text@ =~= label@ + placeholder_text());
            }
            StyledLine { text, class: ColorClass::Informational }
        },
        FixedNum::Finite(m) => {
            if m > 0 {
                text.append("+");
                let digits = format_fixed(m, decimals_positive);
                text.append(digits.as_str());
                proof {
                    reveal_strlit("+");
                    assert(text@ =~= label@ + seq!['+'] + fixed_text(
                        m as int,
                        decimals_positive as nat,
                    ));
                }
                StyledLine { text, class: ColorClass::Positive }
            } else if m < 0 {
                let digits = format_fixed(m, decimals_nonpositive);
                text.append(digits.as_str());
                StyledLine { text, class: ColorClass::Negative }
            } else {
                let digits = format_fixed(0, decimals_nonpositive);
                text.append(digits.as_str());
                StyledLine { text, class: ColorClass::Neutral }
            }
        },
    }
}

} // verus!
