//! Progress bar styles and the templates a progress bar configuration builds.
use vstd::prelude::*;
use crate::errors::{opt_str, ProgressError};
use crate::indicators::{CustomIndicatorType, IndicatorView, ProgressIndicator};
use crate::strs::{decimal, fold_case, folded, join_seq, join_strings, owned, push_char, push_decimal, push_str, str_eq, strings};

verus! {

/// The style of a progress bar.
#[derive(Debug, Clone, Copy, PartialEq, Eq, Structural)]
pub enum ProgressBarStyle {
    /// Standard ASCII progress bar (e.g. "[====    ]")
    Standard,
    /// Unicode block characters (e.g. "██████    ")
    Block,
    /// Braille pattern characters
    Braille,
    /// Dots pattern with partial fill characters
    Dots,
    /// ASCII with color gradient
    Gradient,
}

/// The style a lowercased name denotes.
pub open spec fn style_named(m: Seq<char>) -> Option<ProgressBarStyle> {
    if m == "standard"@ {
        Some(ProgressBarStyle::Standard)
    } else if m == "block"@ {
        Some(ProgressBarStyle::Block)
    } else if m == "braille"@ {
        Some(ProgressBarStyle::Braille)
    } else if m == "dots"@ {
        Some(ProgressBarStyle::Dots)
    } else if m == "gradient"@ {
        Some(ProgressBarStyle::Gradient)
    } else {
        None
    }
}

/// The indicator a style is drawn with.
pub open spec fn style_indicator(s: ProgressBarStyle) -> IndicatorView {
    match s {
        ProgressBarStyle::Standard => IndicatorView::Bar,
        ProgressBarStyle::Block => IndicatorView::Block,
        ProgressBarStyle::Braille => IndicatorView::Custom("braille"@),
        ProgressBarStyle::Dots => IndicatorView::Custom("dots"@),
        ProgressBarStyle::Gradient => IndicatorView::Custom("gradient"@),
    }
}

/// The name of a style in a `{progress:bar:...}` tag.
pub open spec fn style_tag(s: ProgressBarStyle) -> Seq<char> {
    match s {
        ProgressBarStyle::Standard => "bar"@,
        ProgressBarStyle::Block => "block"@,
        ProgressBarStyle::Braille => "custom:braille"@,
        ProgressBarStyle::Dots => "custom:dots"@,
        ProgressBarStyle::Gradient => "custom:gradient"@,
    }
}

impl Default for ProgressBarStyle {
    fn default() -> (r: Self)
        ensures
            r == ProgressBarStyle::Standard,
    {
        ProgressBarStyle::Standard
    }
}

impl ProgressBarStyle {
    /// Parses a style name, compared case-insensitively.
    pub fn from_str(s: &str) -> (r: Result<Self, ProgressError>)
        ensures
            match style_named(folded(s@)) {
                Some(st) => r matches Ok(x) && x == st,
                None => r matches Err(ProgressError::DisplayOperation(m)) && m@ == "Invalid progress bar style: "@ + s@,
            },
    {
        let m = fold_case(s);
        let m = m.as_str();
        if str_eq(m, "standard") {
            Ok(ProgressBarStyle::Standard)
        } else if str_eq(m, "block") {
            Ok(ProgressBarStyle::Block)
        } else if str_eq(m, "braille") {
            Ok(ProgressBarStyle::Braille)
        } else if str_eq(m, "dots") {
            Ok(ProgressBarStyle::Dots)
        } else if str_eq(m, "gradient") {
            Ok(ProgressBarStyle::Gradient)
        } else {
            let mut msg = owned("Invalid progress bar style: ");
            push_str(&mut msg, s);
            Err(ProgressError::DisplayOperation(msg))
        }
    }

    /// The indicator this style is drawn with.
    pub fn to_indicator(self) -> (r: ProgressIndicator)
        ensures
            r@ == style_indicator(self),
    {
        match self {
            ProgressBarStyle::Standard => ProgressIndicator::Bar,
            ProgressBarStyle::Block => ProgressIndicator::Block,
            ProgressBarStyle::Braille => ProgressIndicator::Custom(owned("braille")),
            ProgressBarStyle::Dots => ProgressIndicator::Custom(owned("dots")),
            ProgressBarStyle::Gradient => ProgressIndicator::Custom(owned("gradient")),
        }
    }

    /// The custom indicator type of this style, for the custom styles.
    pub fn custom_type(self) -> (r: Option<CustomIndicatorType>)
        ensures
            r == match self {
                ProgressBarStyle::Braille => Some(CustomIndicatorType::Braille),
                ProgressBarStyle::Dots => Some(CustomIndicatorType::Dots),
                ProgressBarStyle::Gradient => Some(CustomIndicatorType::Gradient),
                _ => None::<CustomIndicatorType>,
            },
    {
        match self {
            ProgressBarStyle::Braille => Some(CustomIndicatorType::Braille),
            ProgressBarStyle::Dots => Some(CustomIndicatorType::Dots),
            ProgressBarStyle::Gradient => Some(CustomIndicatorType::Gradient),
            _ => None,
        }
    }
}

/// Configuration for a progress bar display.
#[derive(Debug, Clone)]
pub struct ProgressBarConfig {
    /// The style of the progress bar
    pub style: ProgressBarStyle,
    /// The width of the progress bar in characters
    pub width: usize,
    /// Whether to show percentage
    pub show_percentage: bool,
    /// Whether to show the fraction (e.g. "5/10")
    pub show_fraction: bool,
    /// The prefix to display before the progress bar
    pub prefix: Option<String>,
    /// The template for formatting the progress display
    pub template: Option<String>,
    /// Character for the filled portion (default depends on style)
    pub fill_char: Option<char>,
    /// Character for the empty portion (default depends on style)
    pub empty_char: Option<char>,
}

/// The abstract value of a progress bar configuration.
pub struct BarConfigView {
    pub style: ProgressBarStyle,
    pub width: usize,
    pub show_percentage: bool,
    pub show_fraction: bool,
    pub prefix: Option<Seq<char>>,
    pub template: Option<Seq<char>>,
    pub fill_char: Option<char>,
    pub empty_char: Option<char>,
}

impl View for ProgressBarConfig {
    type V = BarConfigView;

    open spec fn view(&self) -> BarConfigView {
        BarConfigView {
            style: self.style,
            width: self.width,
            show_percentage: self.show_percentage,
            show_fraction: self.show_fraction,
            prefix: opt_str(self.prefix),
            template: opt_str(self.template),
            fill_char: self.fill_char,
            empty_char: self.empty_char,
        }
    }
}

/// The default configuration: standard style, width 20, percentage and fraction shown.
pub open spec fn default_bar_config() -> BarConfigView {
    BarConfigView {
        style: ProgressBarStyle::Standard,
        width: 20,
        show_percentage: true,
        show_fraction: true,
        prefix: None,
        template: None,
        fill_char: None,
        empty_char: None,
    }
}

/// The bar tag of a configuration: `{progress:bar:STYLE[:FILL:EMPTY]:WIDTH}`, the
/// characters only when both are set.
pub open spec fn bar_tag(c: BarConfigView) -> Seq<char> {
    let chars = match (c.fill_char, c.empty_char) {
        (Some(f), Some(e)) => style_tag(c.style) + ":"@ + seq![f] + ":"@ + seq![e],
        _ => style_tag(c.style),
    };
    "{progress:bar:"@ + chars + ":"@ + decimal(c.width as nat) + "}"@
}

/// The parts of a built template: the prefix, the percentage, the bar and the
/// fraction, each where the configuration asks for it.
pub open spec fn template_parts(c: BarConfigView) -> Seq<Seq<char>> {
    (match c.prefix {
        Some(p) => seq![p],
        None => Seq::empty(),
    }) + (if c.show_percentage {
        seq!["{progress:percent}"@]
    } else {
        Seq::empty()
    }) + seq![bar_tag(c)] + (if c.show_fraction {
        seq!["{completed}/{total}"@]
    } else {
        Seq::empty()
    })
}

/// The template a configuration builds: its own template when it has one, else
/// the parts joined by spaces.
pub open spec fn built_template(c: BarConfigView) -> Seq<char> {
    match c.template {
        Some(t) => t,
        None => join_seq(template_parts(c), " "@),
    }
}

impl Default for ProgressBarConfig {
    fn default() -> (r: Self)
        ensures
            r@ == default_bar_config(),
    {
        ProgressBarConfig {
            style: ProgressBarStyle::Standard,
            width: 20,
            show_percentage: true,
            show_fraction: true,
            prefix: None,
            template: None,
            fill_char: None,
            empty_char: None,
        }
    }
}

impl ProgressBarConfig {
    /// The default configuration.
    pub fn new() -> (r: Self)
        ensures
            r@ == default_bar_config(),
    {
        Self::default()
    }

    /// Set the style.
    pub fn style(self, style: ProgressBarStyle) -> (r: Self)
        ensures
            r@ == (BarConfigView { style, ..self@ }),
    {
        ProgressBarConfig { style, ..self }
    }

    /// Set the width.
    pub fn width(self, width: usize) -> (r: Self)
        ensures
            r@ == (BarConfigView { width, ..self@ }),
    {
        ProgressBarConfig { width, ..self }
    }

    /// Set whether to show the percentage.
    pub fn show_percentage(self, show: bool) -> (r: Self)
        ensures
            r@ == (BarConfigView { show_percentage: show, ..self@ }),
    {
        ProgressBarConfig { show_percentage: show, ..self }
    }

    /// Set whether to show the fraction.
    pub fn show_fraction(self, show: bool) -> (r: Self)
        ensures
            r@ == (BarConfigView { show_fraction: show, ..self@ }),
    {
        ProgressBarConfig { show_fraction: show, ..self }
    }

    /// Set a prefix to display before the bar.
    pub fn prefix(self, prefix: &str) -> (r: Self)
        ensures
            r@ == (BarConfigView { prefix: Some(prefix@), ..self@ }),
    {
        ProgressBarConfig { prefix: Some(owned(prefix)), ..self }
    }

    /// Set a template of its own.
    pub fn template(self, template: &str) -> (r: Self)
        ensures
            r@ == (BarConfigView { template: Some(template@), ..self@ }),
    {
        ProgressBarConfig { template: Some(owned(template)), ..self }
    }

    /// Set the characters of the filled and empty portions.
    pub fn chars(self, fill: char, empty: char) -> (r: Self)
        ensures
            r@ == (BarConfigView { fill_char: Some(fill), empty_char: Some(empty), ..self@ }),
    {
        ProgressBarConfig { fill_char: Some(fill), empty_char: Some(empty), ..self }
    }

    /// The template string of this configuration.
    pub fn build_template(&self) -> (r: String)
        ensures
            r@ == built_template(self@),
    {
        if let Some(template) = &self.template {
            return owned(template.as_str());
        }
        let mut parts: Vec<String> = Vec::new();
        if let Some(prefix) = &self.prefix {
            parts.push(owned(prefix.as_str()));
        }
        if self.show_percentage {
            parts.push(owned("{progress:percent}"));
        }
        let style_name = match self.style {
            ProgressBarStyle::Standard => "bar",
            ProgressBarStyle::Block => "block",
            ProgressBarStyle::Braille => "custom:braille",
            ProgressBarStyle::Dots => "custom:dots",
            ProgressBarStyle::Gradient => "custom:gradient",
        };
        let mut tag = owned("{progress:bar:");
        push_str(&mut tag, style_name);
        match (self.fill_char, self.empty_char) {
            (Some(fill), Some(empty)) => {
                push_str(&mut tag, ":");
                push_char(&mut tag, fill);
                push_str(&mut tag, ":");
                push_char(&mut tag, empty);
            },
            _ => {},
        }
        push_str(&mut tag, ":");
        push_decimal(&mut tag, self.width as u64);
        push_str(&mut tag, "}");
        assert(tag@ =~= bar_tag(self@));
        parts.push(tag);
        if self.show_fraction {
            parts.push(owned("{completed}/{total}"));
        }
        assert(strings(parts@) =~= template_parts(self@));
        join_strings(parts.as_slice(), " ")
    }
}

} // verus!
