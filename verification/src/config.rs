//! The overlay's settings and the order in which their sources override each
//! other: built-in defaults, the `[osd]` section of the config file, the
//! command line and environment.

use vstd::prelude::*;

use crate::placement::OsdPosition;

verus! {

/// The settings of the overlay.
#[derive(PartialEq, Eq, Debug)]
pub struct OsdConfig<F> {
    /// Surface width in physical pixels.
    pub width_px: u32,
    /// Surface height in physical pixels.
    pub height_px: u32,
    /// Margin from the screen edge in physical pixels, in the corner positions.
    pub margin_px: u32,
    /// Where on the screen the surface stands.
    pub position: OsdPosition,
    /// Distance from the top as a fraction of the monitor's height, in the
    /// centered positions.
    pub top_margin: F,
    /// Opacity of the pill.
    pub opacity: F,
    /// Gain applied to the audio before it is drawn.
    pub waveform_gain: F,
    /// Decay rate of the held peak in dB per second.
    pub peak_decay_db_per_sec: F,
}

/// What the command line and the environment say of the settings.
#[derive(PartialEq, Eq, Debug)]
pub struct Overrides<F> {
    pub width_px: Option<u32>,
    pub height_px: Option<u32>,
    pub margin_px: Option<u32>,
    pub waveform_gain: Option<F>,
    /// Never absent: the flag has a default value of its own.
    pub peak_decay_db_per_sec: F,
}

/// What came of the search for the settings in the config file.
#[derive(PartialEq, Eq, Debug)]
pub enum ConfigLookup<C> {
    /// No path was given, and there is no default one.
    NoPath,
    /// The file is missing or cannot be read.
    Unreadable,
    /// The file is not a valid config file.
    Malformed,
    /// The file was parsed; `None` if it has no `[osd]` section.
    Parsed(Option<C>),
}

/// The path of the config file: the one that was given, else the default one.
pub open spec fn first_path<P>(explicit: Option<P>, default_path: Option<P>) -> Option<P> {
    match explicit {
        Some(path) => Some(path),
        None => default_path,
    }
}

/// Picks the path of the config file.
pub fn config_path<P>(explicit: Option<P>, default_path: Option<P>) -> (path: Option<P>)
    ensures
        path == first_path(explicit, default_path),
        explicit is Some ==> path == explicit,
        explicit is None ==> path == default_path,
{
    match explicit {
        Some(path) => Some(path),
        None => default_path,
    }
}

impl<C> ConfigLookup<C> {
    /// The section that was found.
    pub open spec fn section(self) -> Option<C> {
        match self {
            ConfigLookup::Parsed(section) => section,
            _ => None,
        }
    }

    /// The section that was found, or `defaults` whatever the reason that there
    /// is none: the overlay runs with sensible settings even if the file is
    /// broken.
    pub fn section_or(self, defaults: C) -> (config: C)
        ensures
            config == (match self.section() {
                Some(section) => section,
                None => defaults,
            }),
            self matches ConfigLookup::Parsed(Some(section)) ==> config == section,
            !(self matches ConfigLookup::Parsed(Some(_))) ==> config == defaults,
    {
        match self {
            ConfigLookup::Parsed(Some(section)) => section,
            _ => defaults,
        }
    }
}

/// The value in `option`, or `otherwise`.
pub open spec fn given_or<T>(option: Option<T>, otherwise: T) -> T {
    match option {
        Some(value) => value,
        None => otherwise,
    }
}

impl<F> OsdConfig<F> {
    /// These settings under `over`: what `over` gives replaces what was there.
    pub open spec fn overridden(self, over: Overrides<F>) -> OsdConfig<F> {
        OsdConfig {
            width_px: given_or(over.width_px, self.width_px),
            height_px: given_or(over.height_px, self.height_px),
            margin_px: given_or(over.margin_px, self.margin_px),
            position: self.position,
            top_margin: self.top_margin,
            opacity: self.opacity,
            waveform_gain: given_or(over.waveform_gain, self.waveform_gain),
            peak_decay_db_per_sec: over.peak_decay_db_per_sec,
        }
    }

    /// Applies the command line and the environment.
    pub fn with_overrides(self, over: Overrides<F>) -> (config: OsdConfig<F>)
        ensures
            config == self.overridden(over),
            over.width_px matches Some(width) ==> config.width_px == width,
            over.width_px is None ==> config.width_px == self.width_px,
            over.height_px matches Some(height) ==> config.height_px == height,
            over.height_px is None ==> config.height_px == self.height_px,
            over.margin_px matches Some(margin) ==> config.margin_px == margin,
            over.margin_px is None ==> config.margin_px == self.margin_px,
            over.waveform_gain matches Some(gain) ==> config.waveform_gain == gain,
            over.waveform_gain is None ==> config.waveform_gain == self.waveform_gain,
            config.peak_decay_db_per_sec == over.peak_decay_db_per_sec,
            config.position == self.position,
            config.top_margin == self.top_margin,
            config.opacity == self.opacity,
    {
        let mut config = self;
        if let Some(width) = over.width_px {
            config.width_px = width;
        }
        if let Some(height) = over.height_px {
            config.height_px = height;
        }
        if let Some(margin) = over.margin_px {
            config.margin_px = margin;
        }
        if let Some(gain) = over.waveform_gain {
            config.waveform_gain = gain;
        }
        config.peak_decay_db_per_sec = over.peak_decay_db_per_sec;
        config
    }
}

/// The settings that are in force: `defaults`, under what the config file says,
/// under what the command line and the environment say.
pub open spec fn layered<F>(
    defaults: OsdConfig<F>,
    file: ConfigLookup<OsdConfig<F>>,
    over: Overrides<F>,
) -> OsdConfig<F> {
    given_or(file.section(), defaults).overridden(over)
}

/// Layers the three sources of settings.
pub fn effective_config<F>(
    defaults: OsdConfig<F>,
    file: ConfigLookup<OsdConfig<F>>,
    over: Overrides<F>,
) -> (config: OsdConfig<F>)
    ensures
        config == layered(defaults, file, over),
{
    file.section_or(defaults).with_overrides(over)
}

/// Any failure to find the section has the same outcome as a file without one:
/// the defaults, under the command line.
pub proof fn law_broken_file_means_defaults<F>(
    defaults: OsdConfig<F>,
    file: ConfigLookup<OsdConfig<F>>,
    over: Overrides<F>,
)
    requires
        file !is Parsed,
    ensures
        layered(defaults, file, over) == layered(defaults, ConfigLookup::Parsed(None), over),
        layered(defaults, file, over) == defaults.overridden(over),
{
}

/// Where the file has a section, the defaults do not matter.
pub proof fn law_file_hides_defaults<F>(
    section: OsdConfig<F>,
    a: OsdConfig<F>,
    b: OsdConfig<F>,
    over: Overrides<F>,
)
    ensures
        layered(a, ConfigLookup::Parsed(Some(section)), over) == layered(
            b,
            ConfigLookup::Parsed(Some(section)),
            over,
        ),
{
}

/// A setting given on the command line wins over the file and the defaults; one
/// that is not given leaves them alone. The decay rate always comes from the
/// command line.
pub proof fn law_command_line_wins<F>(
    defaults: OsdConfig<F>,
    file: ConfigLookup<OsdConfig<F>>,
    over: Overrides<F>,
)
    ensures
        ({
            let config = layered(defaults, file, over);
            let below = given_or(file.section(), defaults);
            &&& over.width_px matches Some(width) ==> config.width_px == width
            &&& over.width_px is None ==> config.width_px == below.width_px
            &&& over.height_px matches Some(height) ==> config.height_px == height
            &&& over.height_px is None ==> config.height_px == below.height_px
            &&& over.margin_px matches Some(margin) ==> config.margin_px == margin
            &&& over.margin_px is None ==> config.margin_px == below.margin_px
            &&& over.waveform_gain matches Some(gain) ==> config.waveform_gain == gain
            &&& over.waveform_gain is None ==> config.waveform_gain == below.waveform_gain
            &&& config.peak_decay_db_per_sec == over.peak_decay_db_per_sec
            &&& config.position == below.position
            &&& config.top_margin == below.top_margin
            &&& config.opacity == below.opacity
        }),
{
}

/// Applying the same command line twice is the same as applying it once.
pub proof fn law_overrides_are_idempotent<F>(config: OsdConfig<F>, over: Overrides<F>)
    ensures
        config.overridden(over).overridden(over) == config.overridden(over),
{
}

/// Where the file has a section, every setting that the command line does not
/// give is the section's; where it has none, for whatever reason, every such
/// setting is the default.
pub proof fn law_settings_not_given_come_from_below<F>(
    defaults: OsdConfig<F>,
    file: ConfigLookup<OsdConfig<F>>,
    over: Overrides<F>,
    below: OsdConfig<F>,
)
    requires
        file matches ConfigLookup::Parsed(Some(section)) ==> below == section,
        !(file matches ConfigLookup::Parsed(Some(_))) ==> below == defaults,
    ensures
        ({
            let config = layered(defaults, file, over);
            &&& over.width_px is None ==> config.width_px == below.width_px
            &&& over.height_px is None ==> config.height_px == below.height_px
            &&& over.margin_px is None ==> config.margin_px == below.margin_px
            &&& over.waveform_gain is None ==> config.waveform_gain == below.waveform_gain
            &&& config.position == below.position
            &&& config.top_margin == below.top_margin
            &&& config.opacity == below.opacity
        }),
{
}

/// A given path is used as it is; the default one only where none was given.
pub proof fn law_given_path_is_used<P>(given: P, default_path: Option<P>)
    ensures
        first_path(Some(given), default_path) == Some(given),
        first_path(None, default_path) == default_path,
{
}

/// Of two command lines, one after the other, the later one wins where it gives a
/// setting, and the earlier one where only it does.
pub proof fn law_later_overrides_win<F>(config: OsdConfig<F>, a: Overrides<F>, b: Overrides<F>)
    ensures
        ({
            let both = config.overridden(a).overridden(b);
            &&& b.width_px matches Some(width) ==> both.width_px == width
            &&& b.width_px is None && a.width_px is Some ==> both.width_px == a.width_px->0
            &&& b.height_px matches Some(height) ==> both.height_px == height
            &&& b.height_px is None && a.height_px is Some ==> both.height_px == a.height_px->0
            &&& b.margin_px matches Some(margin) ==> both.margin_px == margin
            &&& b.margin_px is None && a.margin_px is Some ==> both.margin_px == a.margin_px->0
            &&& b.waveform_gain matches Some(gain) ==> both.waveform_gain == gain
            &&& b.waveform_gain is None && a.waveform_gain is Some ==> both.waveform_gain
                == a.waveform_gain->0
            &&& both.peak_decay_db_per_sec == b.peak_decay_db_per_sec
        }),
{
}

} // verus!
