//! Service configuration: geographic coordinates, measurement units,
//! the credential source, and the refresh cadence, together with the
//! validation rules that turn an unchecked document into a validated,
//! immutable `ServiceConfig`.
//!
//! Coordinates are carried as fixed-point microdegrees so that the
//! range checks are exact integer comparisons.

use vstd::prelude::*;

verus! {

/// Largest legal latitude, in microdegrees (90 degrees).
pub const LAT_LIMIT_MICRODEG: i64 = 90_000_000;

/// Largest legal longitude magnitude, in microdegrees (180 degrees).
pub const LON_LIMIT_MICRODEG: i64 = 180_000_000;

/// A latitude/longitude pair in microdegrees (degrees times 10^6).
#[derive(Clone, Copy, Debug, PartialEq, Eq, Structural)]
pub struct Coordinates {
    pub lat_microdeg: i64,
    pub lon_microdeg: i64,
}

impl Coordinates {
    /// Latitude within [-90, 90] degrees and longitude within
    /// [-180, 180] degrees.
    pub open spec fn in_range(self) -> bool {
        &&& -LAT_LIMIT_MICRODEG <= self.lat_microdeg <= LAT_LIMIT_MICRODEG
        &&& -LON_LIMIT_MICRODEG <= self.lon_microdeg <= LON_LIMIT_MICRODEG
    }

    /// Range check for both components.
    pub fn validate(&self) -> (r: bool)
        ensures
            r == self.in_range(),
    {
        -LAT_LIMIT_MICRODEG <= self.lat_microdeg && self.lat_microdeg <= LAT_LIMIT_MICRODEG
            && -LON_LIMIT_MICRODEG <= self.lon_microdeg
            && self.lon_microdeg <= LON_LIMIT_MICRODEG
    }
}

/// Measurement units requested from the weather provider.
#[derive(Clone, Copy, Debug, PartialEq, Eq, Structural)]
pub enum WeatherUnits {
    Imperial,
    Metric,
    Standard,
}

/// The unit system a configuration document's `units` field names,
/// if it names one.
pub open spec fn spec_units_of(s: Seq<char>) -> Option<WeatherUnits> {
    if s == "imperial"@ {
        Some(WeatherUnits::Imperial)
    } else if s == "metric"@ {
        Some(WeatherUnits::Metric)
    } else if s == "standard"@ {
        Some(WeatherUnits::Standard)
    } else {
        None
    }
}

impl WeatherUnits {
    /// Parse a document's `units` field.
    pub fn parse(s: &str) -> (r: Option<WeatherUnits>)
        ensures
            r == spec_units_of(s@),
    {
        let owned = s.to_owned();
        if owned == "imperial".to_owned() {
            Some(WeatherUnits::Imperial)
        } else if owned == "metric".to_owned() {
            Some(WeatherUnits::Metric)
        } else if owned == "standard".to_owned() {
            Some(WeatherUnits::Standard)
        } else {
            None
        }
    }

    /// The document spelling of this unit system.
    pub fn as_str(&self) -> (r: &'static str)
        ensures
            spec_units_of(r@) == Some(*self),
    {
        proof {
            reveal_strlit("imperial");
            reveal_strlit("metric");
            reveal_strlit("standard");
        }
        match self {
            WeatherUnits::Imperial => {
                proof {
                    assert(spec_units_of("imperial"@) == Some(WeatherUnits::Imperial));
                }
                "imperial"
            },
            WeatherUnits::Metric => {
                proof {
                    assert("metric"@.len() == 6 && "imperial"@.len() == 8);
                    assert("metric"@ != "imperial"@);
                    assert(spec_units_of("metric"@) == Some(WeatherUnits::Metric));
                }
                "metric"
            },
            WeatherUnits::Standard => {
                proof {
                    assert("standard"@[0] == 's' && "imperial"@[0] == 'i');
                    assert("standard"@ != "imperial"@);
                    assert("standard"@.len() == 8 && "metric"@.len() == 6);
                    assert("standard"@ != "metric"@);
                    assert(spec_units_of("standard"@) == Some(WeatherUnits::Standard));
                }
                "standard"
            },
        }
    }
}

/// A configuration failure, detected at startup and fatal.
#[derive(Clone, Copy, Debug, PartialEq, Eq, Structural)]
pub enum ConfigError {
    /// The document could not be read or does not match the schema.
    ParseFailure,
    /// A coordinate lies outside its legal range.
    InvalidCoordinates,
    /// The refresh interval is zero or negative.
    InvalidInterval,
    /// The credential could not be resolved to non-empty text.
    CredentialUnreadable,
}

/// What a protected value renders as wherever the configuration is
/// logged or persisted.
pub open spec fn spec_redacted_placeholder() -> Seq<char> {
    "[REDACTED]"@
}

/// A credential value whose default rendering is redacted; the raw
/// text is obtainable only through [`Protected::expose_secret`],
/// intended to be called only at the point of use.
pub struct Protected {
    value: String,
}

impl View for Protected {
    type V = Seq<char>;

    closed spec fn view(&self) -> Seq<char> {
        self.value@
    }
}

impl Protected {
    /// Wrap a raw credential.
    pub fn new(value: String) -> (r: Protected)
        ensures
            r@ == value@,
    {
        Protected { value }
    }

    /// Reveal the raw credential text. Call only at the point of use.
    pub fn expose_secret(&self) -> (r: &String)
        ensures
            r@ == self@,
    {
        &self.value
    }

    /// An independent copy holding the same text.
    pub fn duplicate(&self) -> (r: Protected)
        ensures
            r@ == self@,
    {
        Protected { value: self.value.clone() }
    }

    /// The placeholder that stands for this value in any logged or
    /// persisted representation; the same for every credential.
    pub fn redacted_text(&self) -> (r: String)
        ensures
            r@ == spec_redacted_placeholder(),
    {
        "[REDACTED]".to_owned()
    }
}

/// Where the API credential comes from: held inline in the document,
/// or read from a file at the given path.
pub enum CredentialSource {
    Inline(Protected),
    Path(String),
}

impl CredentialSource {
    /// The file a path-based source resolves from, if any. The caller
    /// reads that file and hands the outcome to [`Self::resolve`].
    pub fn file_dependency(&self) -> (r: Option<&String>)
        ensures
            match self {
                CredentialSource::Inline(_) => r is None,
                CredentialSource::Path(p) => r matches Some(q) && q@ == p@,
            },
    {
        match self {
            CredentialSource::Inline(_) => None,
            CredentialSource::Path(p) => Some(p),
        }
    }

    /// Resolve the credential. `file_text` is the outcome of reading
    /// the file named by [`Self::file_dependency`]: `None` when the
    /// file was missing, unreadable or not valid text (and for inline
    /// sources, which need no read).
    ///
    /// Resolution succeeds exactly when the source yields non-empty
    /// text: the inline value for inline sources, the file contents
    /// for path sources.
    pub fn resolve(&self, file_text: Option<String>) -> (r: Result<Protected, ConfigError>)
        ensures
            match self {
                CredentialSource::Inline(p) => {
                    if p@.len() > 0 {
                        r matches Ok(c) && c@ == p@
                    } else {
                        r == Err::<Protected, ConfigError>(ConfigError::CredentialUnreadable)
                    }
                },
                CredentialSource::Path(_) => {
                    match file_text {
                        Some(t) => {
                            if t@.len() > 0 {
                                r matches Ok(c) && c@ == t@
                            } else {
                                r == Err::<Protected, ConfigError>(
                                    ConfigError::CredentialUnreadable,
                                )
                            }
                        },
                        None => r == Err::<Protected, ConfigError>(
                            ConfigError::CredentialUnreadable,
                        ),
                    }
                },
            },
    {
        match self {
            CredentialSource::Inline(p) => {
                if p.expose_secret().as_str().is_empty() {
                    Err(ConfigError::CredentialUnreadable)
                } else {
                    Ok(p.duplicate())
                }
            },
            CredentialSource::Path(_) => {
                match file_text {
                    Some(t) => {
                        if t.as_str().is_empty() {
                            Err(ConfigError::CredentialUnreadable)
                        } else {
                            Ok(Protected::new(t))
                        }
                    },
                    None => Err(ConfigError::CredentialUnreadable),
                }
            },
        }
    }
}

/// Configuration for the display collaborator. The service never
/// interprets it: the document's nested display object is carried
/// verbatim, as its JSON text, to the display driver.
pub struct DisplayConfig {
    pub document: String,
}

/// An unchecked configuration document, already decoded into plain
/// fields but not yet validated.
pub struct RawConfig {
    pub coords: Coordinates,
    pub units: String,
    pub credential_source: CredentialSource,
    pub refresh_interval_secs: i64,
    pub display_config: DisplayConfig,
}

/// Build the credential source from the document's two optional
/// credential fields: an inline protected value or a file path.
/// Exactly one must be present; anything else is a malformed document.
pub fn credential_from_fields(inline: Option<String>, path: Option<String>) -> (r: Result<
    CredentialSource,
    ConfigError,
>)
    ensures
        match (inline, path) {
            (Some(k), None) => r matches Ok(CredentialSource::Inline(p)) && p@ == k@,
            (None, Some(q)) => r matches Ok(CredentialSource::Path(p)) && p@ == q@,
            _ => r == Err::<CredentialSource, ConfigError>(ConfigError::ParseFailure),
        },
{
    match (inline, path) {
        (Some(k), None) => Ok(CredentialSource::Inline(Protected::new(k))),
        (None, Some(q)) => Ok(CredentialSource::Path(q)),
        _ => Err(ConfigError::ParseFailure),
    }
}

/// The validated, immutable configuration for one service run.
pub struct ServiceConfig {
    pub coords: Coordinates,
    pub units: WeatherUnits,
    pub credential_source: CredentialSource,
    /// Refresh cadence in whole seconds; strictly positive.
    pub refresh_interval_secs: u64,
    pub display_config: DisplayConfig,
}

/// True of a credential source that holds an inline value of empty
/// text — the one credential failure detectable without a file read.
pub open spec fn spec_inline_empty(src: CredentialSource) -> bool {
    src matches CredentialSource::Inline(p) && p@.len() == 0
}

impl ServiceConfig {
    /// The validation invariant every constructed config satisfies.
    pub open spec fn wf(self) -> bool {
        &&& self.coords.in_range()
        &&& self.refresh_interval_secs > 0
        &&& !spec_inline_empty(self.credential_source)
    }

    /// Validate a decoded document, all-or-nothing. The checks run in
    /// document order — units spelling, coordinate ranges, interval
    /// positivity, then inline-credential text — and the first failure
    /// decides the error. Confirming a path-based credential requires
    /// a file read, which the caller performs and hands to
    /// [`CredentialSource::resolve`].
    pub fn load_and_validate(raw: RawConfig) -> (r: Result<ServiceConfig, ConfigError>)
        ensures
            spec_units_of(raw.units@) is None ==> r == Err::<ServiceConfig, ConfigError>(
                ConfigError::ParseFailure,
            ),
            spec_units_of(raw.units@) is Some && !raw.coords.in_range() ==> r == Err::<
                ServiceConfig,
                ConfigError,
            >(ConfigError::InvalidCoordinates),
            spec_units_of(raw.units@) is Some && raw.coords.in_range()
                && raw.refresh_interval_secs <= 0 ==> r == Err::<ServiceConfig, ConfigError>(
                ConfigError::InvalidInterval,
            ),
            spec_units_of(raw.units@) is Some && raw.coords.in_range()
                && raw.refresh_interval_secs > 0 && spec_inline_empty(raw.credential_source)
                ==> r == Err::<ServiceConfig, ConfigError>(ConfigError::CredentialUnreadable),
            spec_units_of(raw.units@) is Some && raw.coords.in_range()
                && raw.refresh_interval_secs > 0 && !spec_inline_empty(raw.credential_source)
                ==> (r matches Ok(c) && {
                &&& c.coords == raw.coords
                &&& spec_units_of(raw.units@) == Some(c.units)
                &&& c.credential_source == raw.credential_source
                &&& c.refresh_interval_secs as int == raw.refresh_interval_secs as int
                &&& c.display_config.document@ == raw.display_config.document@
                &&& c.wf()
            }),
    {
        let units = match WeatherUnits::parse(raw.units.as_str()) {
            Some(u) => u,
            None => {
                return Err(ConfigError::ParseFailure);
            },
        };
        if !raw.coords.validate() {
            return Err(ConfigError::InvalidCoordinates);
        }
        if raw.refresh_interval_secs <= 0 {
            return Err(ConfigError::InvalidInterval);
        }
        if let CredentialSource::Inline(p) = &raw.credential_source {
            if p.expose_secret().as_str().is_empty() {
                return Err(ConfigError::CredentialUnreadable);
            }
        }
        Ok(
            ServiceConfig {
                coords: raw.coords,
                units,
                credential_source: raw.credential_source,
                refresh_interval_secs: raw.refresh_interval_secs as u64,
                display_config: raw.display_config,
            },
        )
    }
}

impl Default for ServiceConfig {
    /// The example configuration: Orange County, imperial units, a
    /// placeholder credential path, a 20-minute refresh.
    fn default() -> (r: ServiceConfig)
        ensures
            r.coords == (Coordinates { lat_microdeg: 33_617_000, lon_microdeg: -117_831_000i64 }),
            r.units == WeatherUnits::Imperial,
            r.credential_source matches CredentialSource::Path(p) && p@ == "/foo/bar/secret"@,
            r.refresh_interval_secs == 1200,
            r.display_config.document@ == "{}"@,
            r.wf(),
    {
        ServiceConfig {
            coords: Coordinates { lat_microdeg: 33_617_000, lon_microdeg: -117_831_000 },
            units: WeatherUnits::Imperial,
            credential_source: CredentialSource::Path("/foo/bar/secret".to_owned()),
            refresh_interval_secs: 1200,
            display_config: DisplayConfig { document: "{}".to_owned() },
        }
    }
}

impl ServiceConfig {
    /// A valid example configuration with a placeholder credential,
    /// fit to print as a starting document.
    pub fn example_config() -> (r: ServiceConfig)
        ensures
            r.coords == (Coordinates { lat_microdeg: 33_617_000, lon_microdeg: -117_831_000i64 }),
            r.units == WeatherUnits::Imperial,
            r.credential_source matches CredentialSource::Path(p) && p@ == "/foo/bar/secret"@,
            r.refresh_interval_secs == 1200,
            r.display_config.document@ == "{}"@,
            r.wf(),
    {
        ServiceConfig::default()
    }
}

/// What a credential source shows in any persisted or logged
/// representation: the fixed placeholder for an inline value — never
/// the text itself — and the path for a path-based source.
pub open spec fn spec_logged_credential(src: CredentialSource) -> Seq<char> {
    match src {
        CredentialSource::Inline(_) => spec_redacted_placeholder(),
        CredentialSource::Path(p) => p@,
    }
}

/// The persisted/logged representation of a validated configuration:
/// plain fields, with the credential source reduced to
/// [`spec_logged_credential`].
pub struct LoggedConfig {
    pub lat_microdeg: i64,
    pub lon_microdeg: i64,
    pub units: WeatherUnits,
    pub refresh_interval_secs: u64,
    pub credential: String,
    pub display_document: String,
}

impl ServiceConfig {
    /// Everything the logged representation may depend on. The raw
    /// credential text of an inline source is deliberately absent.
    pub open spec fn spec_logged_view(self) -> (Coordinates, WeatherUnits, u64, Seq<char>, Seq<
        char,
    >) {
        (
            self.coords,
            self.units,
            self.refresh_interval_secs,
            spec_logged_credential(self.credential_source),
            self.display_config.document@,
        )
    }

    /// Build the representation under which the configuration may be
    /// persisted or logged.
    pub fn logged(&self) -> (r: LoggedConfig)
        ensures
            r.lat_microdeg == self.coords.lat_microdeg,
            r.lon_microdeg == self.coords.lon_microdeg,
            r.units == self.units,
            r.refresh_interval_secs == self.refresh_interval_secs,
            r.credential@ == spec_logged_credential(self.credential_source),
            r.display_document@ == self.display_config.document@,
    {
        let credential = match &self.credential_source {
            CredentialSource::Inline(p) => p.redacted_text(),
            CredentialSource::Path(p) => p.clone(),
        };
        LoggedConfig {
            lat_microdeg: self.coords.lat_microdeg,
            lon_microdeg: self.coords.lon_microdeg,
            units: self.units,
            refresh_interval_secs: self.refresh_interval_secs,
            credential,
            display_document: self.display_config.document.clone(),
        }
    }
}

/// The part of a credential source that a logged representation may
/// show: nothing of an inline value, the path of a path-based one.
pub open spec fn spec_credential_public_part(src: CredentialSource) -> Option<Seq<char>> {
    match src {
        CredentialSource::Inline(_) => None,
        CredentialSource::Path(p) => Some(p@),
    }
}

/// The logged representation never contains the raw credential value:
/// two configurations that differ only in that value — same
/// coordinates, units, interval and display document, and credential
/// sources with the same public part — have identical logged views,
/// under either credential source variant.
pub proof fn lemma_logged_hides_credential(a: ServiceConfig, b: ServiceConfig)
    requires
        a.coords == b.coords,
        a.units == b.units,
        a.refresh_interval_secs == b.refresh_interval_secs,
        a.display_config.document@ == b.display_config.document@,
        spec_credential_public_part(a.credential_source) == spec_credential_public_part(
            b.credential_source,
        ),
    ensures
        a.spec_logged_view() == b.spec_logged_view(),
{
}

} // verus!
