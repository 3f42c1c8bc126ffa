//! Names of colors, presets and progress indicators, and the parsing of them.
use vstd::prelude::*;
use crossterm::style::Color;
use crate::strs::{
    chars_of, find_char, first_index_of, fold_case, folded, lemma_first_index_of, owned, str_eq,
    string_of, sub_chars,
};

verus! {

/// The terminal color type of crossterm, carried through opaquely.
#[verifier::external_type_specification]
#[verifier::external_body]
pub struct ExColor(Color);

/// Supported color names for formatting.
#[derive(Debug, Clone, Copy, PartialEq, Eq, Structural)]
pub enum ColorName {
    /// Black color
    Black,
    /// Red color
    Red,
    /// Green color
    Green,
    /// Yellow color
    Yellow,
    /// Blue color
    Blue,
    /// Magenta color
    Magenta,
    /// Cyan color
    Cyan,
    /// White color
    White,
    /// Reset to default color
    Reset,
}

/// The color a lowercased name denotes.
pub open spec fn color_named(m: Seq<char>) -> Option<ColorName> {
    if m == "black"@ {
        Some(ColorName::Black)
    } else if m == "red"@ {
        Some(ColorName::Red)
    } else if m == "green"@ {
        Some(ColorName::Green)
    } else if m == "yellow"@ {
        Some(ColorName::Yellow)
    } else if m == "blue"@ {
        Some(ColorName::Blue)
    } else if m == "magenta"@ {
        Some(ColorName::Magenta)
    } else if m == "cyan"@ {
        Some(ColorName::Cyan)
    } else if m == "white"@ {
        Some(ColorName::White)
    } else if m == "reset"@ {
        Some(ColorName::Reset)
    } else {
        None
    }
}

/// The crossterm color of the same name as `c`.
pub uninterp spec fn crossterm_color(c: ColorName) -> Color;

impl ColorName {
    /// The crossterm color of the same name.
    #[verifier::external_body]
    pub fn to_color(self) -> (r: Color)
        ensures
            r == crossterm_color(self),
    {
        match self {
            ColorName::Black => Color::Black,
            ColorName::Red => Color::Red,
            ColorName::Green => Color::Green,
            ColorName::Yellow => Color::Yellow,
            ColorName::Blue => Color::Blue,
            ColorName::Magenta => Color::Magenta,
            ColorName::Cyan => Color::Cyan,
            ColorName::White => Color::White,
            ColorName::Reset => Color::Reset,
        }
    }

    /// The color named `s`, compared case-insensitively.
    pub fn from_str(s: &str) -> (r: Option<Self>)
        ensures
            r == color_named(folded(s@)),
    {
        let m = fold_case(s);
        let m = m.as_str();
        if str_eq(m, "black") {
            Some(ColorName::Black)
        } else if str_eq(m, "red") {
            Some(ColorName::Red)
        } else if str_eq(m, "green") {
            Some(ColorName::Green)
        } else if str_eq(m, "yellow") {
            Some(ColorName::Yellow)
        } else if str_eq(m, "blue") {
            Some(ColorName::Blue)
        } else if str_eq(m, "magenta") {
            Some(ColorName::Magenta)
        } else if str_eq(m, "cyan") {
            Some(ColorName::Cyan)
        } else if str_eq(m, "white") {
            Some(ColorName::White)
        } else if str_eq(m, "reset") {
            Some(ColorName::Reset)
        } else {
            None
        }
    }
}

/// A template for formatting task progress messages.
#[derive(Debug, Clone)]
pub struct ProgressTemplate {
    template: String,
}

impl View for ProgressTemplate {
    type V = Seq<char>;

    closed spec fn view(&self) -> Seq<char> {
        self.template@
    }
}

impl ProgressTemplate {
    /// A template with the text `template`.
    pub fn new(template: &str) -> (r: Self)
        ensures
            r@ == template@,
    {
        ProgressTemplate { template: owned(template) }
    }

    /// The text of the template.
    pub fn template(&self) -> (r: &str)
        ensures
            r@ == self@,
    {
        self.template.as_str()
    }
}

/// Built-in template presets for common progress displays.
#[derive(Debug, Clone, Copy, PartialEq, Eq, Structural)]
pub enum TemplatePreset {
    /// Simple progress bar: "[====    ] 50% (5/10)"
    SimpleProgress,
    /// Task status: "Running task: <message>"
    TaskStatus,
    /// Job progress: "Completed 5/10 jobs (50%)"
    JobProgress,
    /// Download progress: "Downloading file.txt [====    ] 10.5 MB / 20 MB (50%)"
    DownloadProgress,
}

/// The template text of each preset.
pub open spec fn preset_text(p: TemplatePreset) -> Seq<char> {
    match p {
        TemplatePreset::SimpleProgress => "{progress:bar:10} {progress:percent} ({completed}/{total})"@,
        TemplatePreset::TaskStatus => "Running task: {message}"@,
        TemplatePreset::JobProgress => "Completed {completed}/{total} jobs ({progress:percent})"@,
        TemplatePreset::DownloadProgress =>
            "Downloading {filename} {progress:bar:10} {bytes_done} / {bytes_total} ({progress:percent})"@,
    }
}

impl TemplatePreset {
    /// The template string of this preset.
    pub fn template_string(&self) -> (r: &'static str)
        ensures
            r@ == preset_text(*self),
    {
        match self {
            TemplatePreset::SimpleProgress => "{progress:bar:10} {progress:percent} ({completed}/{total})",
            TemplatePreset::TaskStatus => "Running task: {message}",
            TemplatePreset::JobProgress => "Completed {completed}/{total} jobs ({progress:percent})",
            TemplatePreset::DownloadProgress =>
                "Downloading {filename} {progress:bar:10} {bytes_done} / {bytes_total} ({progress:percent})",
        }
    }

    /// A template made from this preset.
    pub fn create_template(&self) -> (r: ProgressTemplate)
        ensures
            r@ == preset_text(*self),
    {
        ProgressTemplate::new(self.template_string())
    }
}

/// Supported progress indicator types.
#[derive(Debug, Clone, PartialEq, Eq)]
pub enum ProgressIndicator {
    /// Traditional progress bar: "[====    ]"
    Bar,
    /// Block-based progress bar: "[██████    ]"
    Block,
    /// Spinner that rotates through frames
    Spinner,
    /// Numeric display: "50%"
    Numeric,
    /// Interactive progress bar
    Interactive,
    /// Custom indicator, used with `{progress:bar:custom:name}` in templates
    Custom(String),
}

/// The abstract value of a progress indicator.
pub enum IndicatorView {
    Bar,
    Block,
    Spinner,
    Numeric,
    Interactive,
    Custom(Seq<char>),
}

impl View for ProgressIndicator {
    type V = IndicatorView;

    open spec fn view(&self) -> IndicatorView {
        match self {
            ProgressIndicator::Bar => IndicatorView::Bar,
            ProgressIndicator::Block => IndicatorView::Block,
            ProgressIndicator::Spinner => IndicatorView::Spinner,
            ProgressIndicator::Numeric => IndicatorView::Numeric,
            ProgressIndicator::Interactive => IndicatorView::Interactive,
            ProgressIndicator::Custom(s) => IndicatorView::Custom(s@),
        }
    }
}

/// The error returned when a progress indicator name is not recognized.
#[derive(Debug, Clone, PartialEq, Eq, Structural)]
pub struct ProgressIndicatorParseError;

impl ProgressIndicatorParseError {
    /// The description of the error.
    pub fn to_string(&self) -> (r: String)
        ensures
            r@ == "Invalid progress indicator name"@,
    {
        owned("Invalid progress indicator name")
    }
}

/// The indicator that `s` names: the part before the first `:` names the type
/// (case-insensitively); `custom` takes the rest, after the `:`, as its name.
pub open spec fn indicator_named(s: Seq<char>) -> Option<IndicatorView> {
    let base = match first_index_of(s, ':') {
        Some(i) => s.take(i),
        None => s,
    };
    let m = folded(base);
    if m == "bar"@ {
        Some(IndicatorView::Bar)
    } else if m == "block"@ {
        Some(IndicatorView::Block)
    } else if m == "spinner"@ {
        Some(IndicatorView::Spinner)
    } else if m == "numeric"@ {
        Some(IndicatorView::Numeric)
    } else if m == "interactive"@ {
        Some(IndicatorView::Interactive)
    } else if m == "custom"@ && first_index_of(s, ':') is Some {
        Some(IndicatorView::Custom(s.skip(first_index_of(s, ':').unwrap() + 1)))
    } else {
        None
    }
}

impl ProgressIndicator {
    /// The default spinner frames.
    pub fn default_spinner_frames() -> (r: Vec<&'static str>)
        ensures
            r@.map_values(|s: &str| s@) == seq!["-"@, "\\"@, "|"@, "/"@],
    {
        let r = vec!["-", "\\", "|", "/"];
        assert(r@.map_values(|s: &str| s@) =~= seq!["-"@, "\\"@, "|"@, "/"@]);
        r
    }

    /// The default block characters, from full to empty.
    pub fn default_block_chars() -> (r: &'static str)
        ensures
            r@ == "█▓▒░ "@,
    {
        "█▓▒░ "
    }

    /// The default characters of an interactive indicator: fill, background and cursor.
    pub fn default_interactive_chars() -> (r: (char, char, char))
        ensures
            r == ('=', ' ', '>'),
    {
        ('=', ' ', '>')
    }

    /// Parses an indicator name, as `indicator_named` says.
    pub fn from_str(s: &str) -> (r: Result<Self, ProgressIndicatorParseError>)
        ensures
            match indicator_named(s@) {
                Some(v) => r matches Ok(p) && p@ == v,
                None => r is Err,
            },
    {
        let chars = chars_of(s);
        let colon = find_char(chars.as_slice(), ':');
        let base_end = match colon {
            Some(i) => i,
            None => chars.len(),
        };
        proof {
            if colon is Some {
                lemma_first_index_of(s@, ':', base_end as int);
            }
        }
        let base = string_of(sub_chars(chars.as_slice(), 0, base_end).as_slice());
        assert(base@ =~= match first_index_of(s@, ':') {
            Some(i) => s@.take(i),
            None => s@,
        });
        let m = fold_case(base.as_str());
        let m = m.as_str();
        if str_eq(m, "bar") {
            Ok(ProgressIndicator::Bar)
        } else if str_eq(m, "block") {
            Ok(ProgressIndicator::Block)
        } else if str_eq(m, "spinner") {
            Ok(ProgressIndicator::Spinner)
        } else if str_eq(m, "numeric") {
            Ok(ProgressIndicator::Numeric)
        } else if str_eq(m, "interactive") {
            Ok(ProgressIndicator::Interactive)
        } else if str_eq(m, "custom") {
            match colon {
                Some(i) => {
                    let n = chars.len();
                    assert(i < n);
                    let rest = string_of(sub_chars(chars.as_slice(), i + 1, n).as_slice());
                    assert(rest@ =~= s@.skip(first_index_of(s@, ':').unwrap() + 1));
                    Ok(ProgressIndicator::Custom(rest))
                },
                None => Err(ProgressIndicatorParseError),
            }
        } else {
            Err(ProgressIndicatorParseError)
        }
    }
}

/// Custom indicator types.
#[derive(Debug, Clone, Copy, PartialEq, Eq, Structural)]
pub enum CustomIndicatorType {
    /// Dots indicator that uses Unicode dots
    Dots,
    /// Braille-based indicator that uses Unicode braille patterns
    Braille,
    /// Gradient indicator that uses color gradients
    Gradient,
}

/// The error returned when a custom indicator type is not recognized.
#[derive(Debug, Clone, PartialEq, Eq, Structural)]
pub struct CustomIndicatorTypeError;

impl CustomIndicatorTypeError {
    /// The description of the error.
    pub fn to_string(&self) -> (r: String)
        ensures
            r@ == "Unknown custom indicator type"@,
    {
        owned("Unknown custom indicator type")
    }
}

/// The custom indicator type a lowercased name denotes.
pub open spec fn custom_named(m: Seq<char>) -> Option<CustomIndicatorType> {
    if m == "dots"@ {
        Some(CustomIndicatorType::Dots)
    } else if m == "braille"@ {
        Some(CustomIndicatorType::Braille)
    } else if m == "gradient"@ {
        Some(CustomIndicatorType::Gradient)
    } else {
        None
    }
}

impl CustomIndicatorType {
    /// Parses a custom indicator type, compared case-insensitively.
    pub fn from_str(s: &str) -> (r: Result<Self, CustomIndicatorTypeError>)
        ensures
            match custom_named(folded(s@)) {
                Some(t) => r == Ok::<CustomIndicatorType, CustomIndicatorTypeError>(t),
                None => r is Err,
            },
    {
        let m = fold_case(s);
        let m = m.as_str();
        if str_eq(m, "dots") {
            Ok(CustomIndicatorType::Dots)
        } else if str_eq(m, "braille") {
            Ok(CustomIndicatorType::Braille)
        } else if str_eq(m, "gradient") {
            Ok(CustomIndicatorType::Gradient)
        } else {
            Err(CustomIndicatorTypeError)
        }
    }

    /// The names of all custom indicator types.
    pub fn variants() -> (r: Vec<&'static str>)
        ensures
            r@.map_values(|s: &str| s@) == seq!["dots"@, "braille"@, "gradient"@],
    {
        let r = vec!["dots", "braille", "gradient"];
        assert(r@.map_values(|s: &str| s@) =~= seq!["dots"@, "braille"@, "gradient"@]);
        r
    }
}

} // verus!
