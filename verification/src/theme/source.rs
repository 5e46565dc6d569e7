//! Contract-aware token source used to populate a [`super::ThemePack`].
//!
//! A theme is loaded from TOML text. Every token is addressed by a dotted
//! path; stateful token groups fall back along a chain of parent states when a
//! token is absent.

use vstd::prelude::*;
use vstd::string::StringExecFns;

use spectrum_theme::config::{TomlThemeSource, TomlThemeSourceError};
use spectrum_theme::source::TokenSource;
use spectrum_theme::{Color, Length, Radius, ShadowLayer, ThemeBuildError};

verus! {

/// Theme color value (opaque: channels are read by the value's own API).
#[verifier::external_type_specification]
#[verifier::external_body]
pub struct ExColor(Color);

/// Theme length value (opaque: carries a finite number and a unit).
#[verifier::external_type_specification]
#[verifier::external_body]
pub struct ExLength(Length);

/// Theme corner radius value (opaque: a non-negative length).
#[verifier::external_type_specification]
#[verifier::external_body]
pub struct ExRadius(Radius);

/// Theme shadow value (opaque: color, offsets, blur and spread).
#[verifier::external_type_specification]
#[verifier::external_body]
pub struct ExShadowLayer(ShadowLayer);

/// Parsed TOML token table.
#[verifier::external_type_specification]
#[verifier::external_body]
pub struct ExTomlThemeSource(TomlThemeSource);

/// Error of the TOML token table parser.
#[verifier::external_type_specification]
#[verifier::external_body]
pub struct ExTomlThemeSourceError(TomlThemeSourceError);

/// Error produced while reading one typed token.
#[derive(Clone, Debug, PartialEq, Eq)]
pub enum TokenError {
    /// The contract requires a token absent from the source.
    MissingToken {
        /// Missing token path.
        path: String,
    },
    /// A Material binding was loaded without a seed.
    MissingSeed {
        /// Material-bound token path.
        path: String,
    },
    /// A Material binding was loaded without seed support.
    SeedFeatureDisabled {
        /// Material-bound token path.
        path: String,
    },
    /// A token exists but cannot be parsed as the requested value type.
    InvalidTokenValue {
        /// Token path.
        path: String,
        /// Human-readable parse failure.
        message: String,
    },
}

/// Whether a token error means "token not present".
pub open spec fn is_missing_error(error: TokenError) -> bool {
    error is MissingToken
}

/// Whether a read result is a "token not present" error.
pub open spec fn is_missing_read<T>(read: Result<T, TokenError>) -> bool {
    read is Err && is_missing_error(read->Err_0)
}

impl TokenError {
    /// Returns whether this error means "token not present".
    pub fn is_missing(&self) -> (r: bool)
        ensures
            r == is_missing_error(*self),
    {
        match self {
            TokenError::MissingToken { .. } => true,
            _ => false,
        }
    }
}

/// Whether the TOML parser accepts `text` as a theme source.
pub uninterp spec fn toml_source_parses(text: Seq<char>) -> bool;

/// Whether the theme source parsed from `text` has a top-level `seed`
/// colour.
pub uninterp spec fn toml_source_seeded(text: Seq<char>) -> bool;

/// A read result agrees with a reference outcome: it succeeds exactly when
/// the reference does, fails with the same error, and, when `exact`, gives
/// the same value.
pub open spec fn read_agrees<T>(r: Result<T, TokenError>, reference: Result<T, TokenError>, exact: bool) -> bool {
    &&& (r is Ok <==> reference is Ok)
    &&& (r is Err ==> r == reference)
    &&& (exact ==> r == reference)
}

/// The outcome of reading the color token at `path` of the theme source
/// parsed from `text`. Its success and its error are decided by the text; its
/// colour is claimed only for sources without a seed, since a colour resolved
/// from the seed's Material palette is computed with platform-dependent
/// floating point.
pub uninterp spec fn toml_color_token(text: Seq<char>, path: Seq<char>) -> Result<Color, TokenError>;

/// The length token at `path` of the theme source parsed from `text`.
pub uninterp spec fn toml_length_token(text: Seq<char>, path: Seq<char>) -> Result<Length, TokenError>;

/// The radius token at `path` of the theme source parsed from `text`.
pub uninterp spec fn toml_radius_token(text: Seq<char>, path: Seq<char>) -> Result<Radius, TokenError>;

/// The outcome of reading the shadow token at `path` of the theme source
/// parsed from `text`. Its success and its error are decided by the text; its
/// value is claimed only for sources without a seed, since its colour may be
/// resolved from the seed's Material palette.
pub uninterp spec fn toml_shadow_token(text: Seq<char>, path: Seq<char>) -> Result<ShadowLayer, TokenError>;

/// The error the TOML parser reports for `text` when it refuses it.
pub uninterp spec fn toml_parse_error(text: Seq<char>) -> TomlThemeSourceError;

/// Whether theme text is plain: every character is ASCII and none is a
/// backslash.
///
/// The colour parser behind every colour token (and the top-level `seed`)
/// slices colour text by byte position and panics on a non-ASCII character.
/// In plain text no decoded string value can hold one: a non-ASCII character
/// would have to be written out or produced by a backslash escape.
pub open spec fn plain_theme_text(text: Seq<char>) -> bool {
    &&& vstd::utf8::is_ascii_chars(text)
    &&& forall|i: int| 0 <= i < text.len() ==> (#[trigger] text[i] as u32) != 92
}

/// Returns whether theme text is plain (see [`plain_theme_text`]).
pub fn is_plain_theme_text(text: &str) -> (r: bool)
    ensures
        r == plain_theme_text(text@),
{
    if !text.is_ascii() {
        return false;
    }
    let bytes = text.as_bytes();
    proof {
        vstd::string::is_ascii_spec_bytes(text);
    }
    let mut i: usize = 0;
    while i < bytes.len()
        invariant
            vstd::utf8::is_ascii_chars(text@),
            bytes@ == Seq::new(text@.len(), |j: int| text@[j] as u8),
            0 <= i <= bytes.len(),
            forall|j: int| 0 <= j < i ==> (#[trigger] text@[j] as u32) != 92,
        decreases bytes.len() - i,
    {
        assert(bytes@[i as int] == text@[i as int] as u8);
        if bytes[i] == 92u8 {
            return false;
        }
        i = i + 1;
    }
    true
}

/// A parsed theme source together with the text it was parsed from.
///
/// The text is plain, so no token read can reach a panic of the colour
/// parser.
pub struct ThemeSource {
    text: String,
    source: TomlThemeSource,
}

impl ThemeSource {
    #[verifier::type_invariant]
    spec fn text_is_plain(self) -> bool {
        plain_theme_text(self.text@)
    }
}

impl View for ThemeSource {
    type V = Seq<char>;

    /// The TOML text this source was parsed from.
    closed spec fn view(&self) -> Seq<char> {
        self.text@
    }
}

/// Parses TOML theme text.
///
/// Trusted: calls `TomlThemeSource::parse`, which parses the TOML table and
/// the optional `seed` colour and `meta.mode`. The contract claims that
/// success, and the error on failure, are decided by the text alone. The
/// caller keeps the text plain, which rules out the colour parser's panic
/// on a non-ASCII `seed`.
#[verifier::external_body]
fn parse_toml(input: &str) -> (r: Result<TomlThemeSource, TomlThemeSourceError>)
    requires
        plain_theme_text(input@),
    ensures
        r is Ok <==> toml_source_parses(input@),
        r matches Err(error) ==> error == toml_parse_error(input@),
{
    TomlThemeSource::parse(input)
}

/// Whether the parsed table has a top-level seed colour.
///
/// Trusted: calls `TomlThemeSource::seed` and tells its two variants apart;
/// the contract names the answer as a function of the text.
#[verifier::external_body]
fn seed_present(source: &ThemeSource) -> (r: bool)
    ensures
        r == toml_source_seeded(source@),
{
    source.source.seed().is_some()
}

impl ThemeSource {
    /// Returns whether this source has a top-level seed colour, from which
    /// `{material.<role>}` colour references are resolved.
    pub fn has_seed(&self) -> (r: bool)
        ensures
            r == toml_source_seeded(self@),
    {
        seed_present(self)
    }

    /// Parses plain TOML theme text into a token source; the source's view
    /// is the text.
    pub fn parse(input: &str) -> (r: Result<ThemeSource, TomlThemeSourceError>)
        requires
            plain_theme_text(input@),
        ensures
            r is Ok <==> toml_source_parses(input@),
            r matches Ok(source) ==> source@ == input@,
            r matches Err(error) ==> error == toml_parse_error(input@),
    {
        match parse_toml(input) {
            Ok(source) => Ok(ThemeSource { text: String::from_str(input), source }),
            Err(error) => Err(error),
        }
    }
}

/// A typed theme value read from a [`ThemeSource`] by token path.
pub trait TokenValue: Sized {
    /// The read result for `path` in the source parsed from `text`.
    spec fn spec_read(text: Seq<char>, path: Seq<char>) -> Result<Self, TokenError>;

    /// Whether reads of this kind give exactly the value `spec_read` names in
    /// the source parsed from `text` (always for lengths and radii; for
    /// colours and shadows when the source has no seed).
    spec fn spec_exact(text: Seq<char>) -> bool;

    /// Reads the token at `path`.
    fn read(source: &ThemeSource, path: &str) -> (r: Result<Self, TokenError>)
        ensures
            read_agrees(r, Self::spec_read(source@, path@), Self::spec_exact(source@)),
    ;
}

/// Reads the color token at `path`.
///
/// Trusted: calls `TokenSource::token::<Color>` of the parsed table, which
/// resolves `{reference}` values and parses `#RRGGBB[AA]` text; a
/// `{material.<role>}` reference is resolved from the seed's Material palette
/// (a missing seed is an error). Its error is carried over variant by
/// variant. The contract claims that success and the error are decided by the
/// text and the path, and names the colour only for sources without a seed:
/// Material palettes are computed with floating-point functions whose
/// precision std leaves to the platform.
#[verifier::external_body]
fn read_color_token(source: &ThemeSource, path: &str) -> (r: Result<Color, TokenError>)
    requires
        plain_theme_text(source@),
    ensures
        read_agrees(r, toml_color_token(source@, path@), !toml_source_seeded(source@)),
{
    match source.source.token::<Color>(path) {
        Ok(value) => Ok(value),
        Err(ThemeBuildError::MissingToken { path }) => Err(TokenError::MissingToken { path }),
        Err(ThemeBuildError::MissingSeed { path }) => Err(TokenError::MissingSeed { path }),
        Err(ThemeBuildError::SeedFeatureDisabled { path }) => {
            Err(TokenError::SeedFeatureDisabled { path })
        },
        Err(ThemeBuildError::InvalidTokenValue { path, message }) => {
            Err(TokenError::InvalidTokenValue { path, message })
        },
    }
}

impl TokenValue for Color {
    open spec fn spec_read(text: Seq<char>, path: Seq<char>) -> Result<Color, TokenError> {
        toml_color_token(text, path)
    }

    open spec fn spec_exact(text: Seq<char>) -> bool {
        !toml_source_seeded(text)
    }

    fn read(source: &ThemeSource, path: &str) -> (r: Result<Color, TokenError>) {
        proof {
            use_type_invariant(source);
        }
        read_color_token(source, path)
    }
}

/// Reads the length token at `path`.
///
/// Trusted: calls `TokenSource::token::<Length>` of the parsed table, which
/// parses `<number><unit>` text. Its error is carried over variant by variant. The
/// contract names the result as a function of the source text and the path.
#[verifier::external_body]
fn read_length_token(source: &ThemeSource, path: &str) -> (r: Result<Length, TokenError>)
    ensures
        r == toml_length_token(source@, path@),
{
    match source.source.token::<Length>(path) {
        Ok(value) => Ok(value),
        Err(ThemeBuildError::MissingToken { path }) => Err(TokenError::MissingToken { path }),
        Err(ThemeBuildError::MissingSeed { path }) => Err(TokenError::MissingSeed { path }),
        Err(ThemeBuildError::SeedFeatureDisabled { path }) => {
            Err(TokenError::SeedFeatureDisabled { path })
        },
        Err(ThemeBuildError::InvalidTokenValue { path, message }) => {
            Err(TokenError::InvalidTokenValue { path, message })
        },
    }
}

impl TokenValue for Length {
    open spec fn spec_read(text: Seq<char>, path: Seq<char>) -> Result<Length, TokenError> {
        toml_length_token(text, path)
    }

    open spec fn spec_exact(text: Seq<char>) -> bool {
        true
    }

    fn read(source: &ThemeSource, path: &str) -> (r: Result<Length, TokenError>) {
        read_length_token(source, path)
    }
}

/// Reads the radius token at `path`.
///
/// Trusted: calls `TokenSource::token::<Radius>` of the parsed table, which
/// parses a non-negative length. Its error is carried over variant by variant. The
/// contract names the result as a function of the source text and the path.
#[verifier::external_body]
fn read_radius_token(source: &ThemeSource, path: &str) -> (r: Result<Radius, TokenError>)
    ensures
        r == toml_radius_token(source@, path@),
{
    match source.source.token::<Radius>(path) {
        Ok(value) => Ok(value),
        Err(ThemeBuildError::MissingToken { path }) => Err(TokenError::MissingToken { path }),
        Err(ThemeBuildError::MissingSeed { path }) => Err(TokenError::MissingSeed { path }),
        Err(ThemeBuildError::SeedFeatureDisabled { path }) => {
            Err(TokenError::SeedFeatureDisabled { path })
        },
        Err(ThemeBuildError::InvalidTokenValue { path, message }) => {
            Err(TokenError::InvalidTokenValue { path, message })
        },
    }
}

impl TokenValue for Radius {
    open spec fn spec_read(text: Seq<char>, path: Seq<char>) -> Result<Radius, TokenError> {
        toml_radius_token(text, path)
    }

    open spec fn spec_exact(text: Seq<char>) -> bool {
        true
    }

    fn read(source: &ThemeSource, path: &str) -> (r: Result<Radius, TokenError>) {
        read_radius_token(source, path)
    }
}

/// Reads the shadow token at `path`.
///
/// Trusted: calls `TokenSource::token::<ShadowLayer>` of the parsed table, which
/// reads the `color`, `offset_x`, `offset_y`, `blur` and
/// `spread` sub-tokens and refuses a negative blur. Its error is carried
/// over variant by variant. The contract claims that success and the error
/// are decided by the text and the path, and names the shadow only for
/// sources without a seed, whose colours are never Material-resolved.
#[verifier::external_body]
fn read_shadow_token(source: &ThemeSource, path: &str) -> (r: Result<ShadowLayer, TokenError>)
    requires
        plain_theme_text(source@),
    ensures
        read_agrees(r, toml_shadow_token(source@, path@), !toml_source_seeded(source@)),
{
    match source.source.token::<ShadowLayer>(path) {
        Ok(value) => Ok(value),
        Err(ThemeBuildError::MissingToken { path }) => Err(TokenError::MissingToken { path }),
        Err(ThemeBuildError::MissingSeed { path }) => Err(TokenError::MissingSeed { path }),
        Err(ThemeBuildError::SeedFeatureDisabled { path }) => {
            Err(TokenError::SeedFeatureDisabled { path })
        },
        Err(ThemeBuildError::InvalidTokenValue { path, message }) => {
            Err(TokenError::InvalidTokenValue { path, message })
        },
    }
}

impl TokenValue for ShadowLayer {
    open spec fn spec_read(text: Seq<char>, path: Seq<char>) -> Result<ShadowLayer, TokenError> {
        toml_shadow_token(text, path)
    }

    open spec fn spec_exact(text: Seq<char>) -> bool {
        !toml_source_seeded(text)
    }

    fn read(source: &ThemeSource, path: &str) -> (r: Result<ShadowLayer, TokenError>) {
        proof {
            use_type_invariant(source);
        }
        read_shadow_token(source, path)
    }
}

/// Reads the first present token along `paths`.
///
/// A present token (or a read error other than "missing") ends the search;
/// when every path is missing, the error of the first path is returned.
pub open spec fn inherited_read<T: TokenValue>(text: Seq<char>, paths: Seq<Seq<char>>) -> Result<
    T,
    TokenError,
>
    decreases paths.len(),
{
    if paths.len() <= 1 {
        T::spec_read(text, paths[0])
    } else {
        let first = T::spec_read(text, paths[0]);
        if is_missing_read(first) {
            let rest = inherited_read::<T>(text, paths.drop_first());
            if is_missing_read(rest) {
                first
            } else {
                rest
            }
        } else {
            first
        }
    }
}

/// The views of a sequence of strings.
pub open spec fn string_views(strings: Seq<String>) -> Seq<Seq<char>> {
    strings.map_values(|s: String| s@)
}

/// Lemma: once the first `i` paths are all missing, the inherited read is the
/// first path's error when the rest are all missing, and the rest's read
/// otherwise.
proof fn lemma_inherited_skip<T: TokenValue>(text: Seq<char>, paths: Seq<Seq<char>>, i: int)
    requires
        1 <= i < paths.len(),
        forall|j: int| 0 <= j < i ==> is_missing_read(#[trigger] T::spec_read(text, paths[j])),
    ensures
        inherited_read::<T>(text, paths) == (if is_missing_read(
            inherited_read::<T>(text, paths.subrange(i, paths.len() as int)),
        ) {
            T::spec_read(text, paths[0])
        } else {
            inherited_read::<T>(text, paths.subrange(i, paths.len() as int))
        }),
    decreases i,
{
    let tail = paths.drop_first();
    assert(tail.subrange(i - 1, tail.len() as int) =~= paths.subrange(i, paths.len() as int));
    if i == 1 {
        assert(tail =~= paths.subrange(1, paths.len() as int));
    } else {
        assert forall|j: int| 0 <= j < i - 1 implies is_missing_read(
            #[trigger] T::spec_read(text, tail[j]),
        ) by {
            assert(tail[j] == paths[j + 1]);
            assert(is_missing_read(T::spec_read(text, paths[j + 1])));
        }
        lemma_inherited_skip::<T>(text, tail, i - 1);
        assert(tail[0] == paths[1]);
    }
}

/// Lemma: when every path is missing, the inherited read is the first path's
/// error.
proof fn lemma_inherited_all_missing<T: TokenValue>(text: Seq<char>, paths: Seq<Seq<char>>)
    requires
        paths.len() >= 1,
        forall|j: int| 0 <= j < paths.len() ==> is_missing_read(#[trigger] T::spec_read(text, paths[j])),
    ensures
        inherited_read::<T>(text, paths) == T::spec_read(text, paths[0]),
    decreases paths.len(),
{
    if paths.len() > 1 {
        let tail = paths.drop_first();
        assert forall|j: int| 0 <= j < tail.len() implies is_missing_read(
            #[trigger] T::spec_read(text, tail[j]),
        ) by {
            assert(tail[j] == paths[j + 1]);
            assert(is_missing_read(T::spec_read(text, paths[j + 1])));
        }
        lemma_inherited_all_missing::<T>(text, tail);
        assert(tail[0] == paths[1]);
        assert(is_missing_read(T::spec_read(text, paths[1])));
    }
}

/// The outcome of a read along a chain of paths is decided by its first
/// path unless that path is absent: a present token, or a token that fails
/// to parse, ends the chain (a parent never masks an invalid child token);
/// and when no path of the chain holds the token, the read fails with the
/// error of the first path.
pub proof fn lemma_inherited_read_first_path<T: TokenValue>(text: Seq<char>, paths: Seq<Seq<char>>)
    requires
        paths.len() >= 1,
    ensures
        !is_missing_read(T::spec_read(text, paths[0])) ==> inherited_read::<T>(text, paths)
            == T::spec_read(text, paths[0]),
        (forall|j: int| 0 <= j < paths.len() ==> is_missing_read(#[trigger] T::spec_read(text, paths[j])))
            ==> inherited_read::<T>(text, paths) == T::spec_read(text, paths[0]),
{
    if forall|j: int| 0 <= j < paths.len() ==> is_missing_read(#[trigger] T::spec_read(text, paths[j])) {
        lemma_inherited_all_missing::<T>(text, paths);
    }
}

/// Reads the first present token along `paths`; see [`inherited_read`].
pub fn read_inherited<T: TokenValue>(source: &ThemeSource, paths: &Vec<String>) -> (r: Result<
    T,
    TokenError,
>)
    requires
        paths.len() >= 1,
    ensures
        read_agrees(r, inherited_read::<T>(source@, string_views(paths@)), T::spec_exact(source@)),
{
    let ghost text = source@;
    let ghost views = string_views(paths@);
    let mut missing: Option<TokenError> = None;
    let mut i: usize = 0;
    while i < paths.len()
        invariant
            text == source@,
            views == string_views(paths@),
            views.len() == paths.len(),
            paths.len() >= 1,
            0 <= i <= paths.len(),
            forall|j: int| 0 <= j < i ==> is_missing_read(#[trigger] T::spec_read(text, views[j])),
            i == 0 ==> missing is None,
            i > 0 ==> missing == Some(T::spec_read(text, views[0])->Err_0),
        decreases paths.len() - i,
    {
        let read = T::read(source, paths[i].as_str());
        assert(views[i as int] == paths@[i as int]@);
        match read {
            Ok(value) => {
                proof {
                    if i > 0 {
                        lemma_inherited_skip::<T>(text, views, i as int);
                        assert(views.subrange(i as int, views.len() as int)[0] == views[i as int]);
                    }
                }
                return Ok(value);
            },
            Err(error) => {
                if error.is_missing() {
                    if missing.is_none() {
                        missing = Some(error);
                    }
                } else {
                    proof {
                        if i > 0 {
                            lemma_inherited_skip::<T>(text, views, i as int);
                            assert(views.subrange(i as int, views.len() as int)[0]
                                == views[i as int]);
                        }
                    }
                    return Err(error);
                }
            },
        }
        i = i + 1;
    }
    proof {
        lemma_inherited_all_missing::<T>(text, views);
    }
    match missing {
        Some(error) => Err(error),
        None => {
            proof {
                assert(false);
            }
            Err(TokenError::MissingToken { path: String::new() })
        },
    }
}

/// The full token paths `base.field` for every base path.
pub open spec fn field_paths(bases: Seq<Seq<char>>, field: Seq<char>) -> Seq<Seq<char>> {
    bases.map_values(|base: Seq<char>| base + "."@ + field)
}

/// Builds `base.field` for every base path.
pub fn build_field_paths(bases: &Vec<String>, field: &str) -> (r: Vec<String>)
    ensures
        string_views(r@) == field_paths(string_views(bases@), field@),
        r.len() == bases.len(),
{
    let mut r: Vec<String> = Vec::new();
    let mut i: usize = 0;
    while i < bases.len()
        invariant
            0 <= i <= bases.len(),
            r.len() == i,
            forall|j: int|
                0 <= j < i ==> #[trigger] r@[j]@ == bases@[j]@ + "."@ + field@,
        decreases bases.len() - i,
    {
        let path = String::from_str(bases[i].as_str()).concat(".").concat(field);
        r.push(path);
        i = i + 1;
    }
    assert(string_views(r@) =~= field_paths(string_views(bases@), field@));
    r
}

/// The state base paths `prefix.state` for a chain of state names.
pub open spec fn state_bases(prefix: Seq<char>, chain: Seq<Seq<char>>) -> Seq<Seq<char>> {
    chain.map_values(|state: Seq<char>| prefix + "."@ + state)
}

/// Builds `prefix.state` for every state of `chain`.
pub fn build_state_bases(prefix: &str, chain: &[&str]) -> (r: Vec<String>)
    ensures
        string_views(r@) == state_bases(prefix@, chain@.map_values(|s: &str| s@)),
        r.len() == chain.len(),
{
    let mut r: Vec<String> = Vec::new();
    let mut i: usize = 0;
    while i < chain.len()
        invariant
            0 <= i <= chain.len(),
            r.len() == i,
            forall|j: int| 0 <= j < i ==> #[trigger] r@[j]@ == prefix@ + "."@ + chain@[j]@,
        decreases chain.len() - i,
    {
        let base = String::from_str(prefix).concat(".").concat(chain[i]);
        r.push(base);
        i = i + 1;
    }
    assert(string_views(r@) =~= state_bases(prefix@, chain@.map_values(|s: &str| s@)));
    r
}


/// Builds owned token paths from a chain of path texts.
pub fn build_paths(chain: &[&str]) -> (r: Vec<String>)
    ensures
        string_views(r@) == chain@.map_values(|s: &str| s@),
        r.len() == chain.len(),
{
    let mut r: Vec<String> = Vec::new();
    let mut i: usize = 0;
    while i < chain.len()
        invariant
            0 <= i <= chain.len(),
            r.len() == i,
            forall|j: int| 0 <= j < i ==> #[trigger] r@[j]@ == chain@[j]@,
        decreases chain.len() - i,
    {
        r.push(String::from_str(chain[i]));
        i = i + 1;
    }
    assert(string_views(r@) =~= chain@.map_values(|s: &str| s@));
    r
}

/// Builds the base path of a state without a parent.
pub fn state_chain_1(prefix: &str, state: &str) -> (r: Vec<String>)
    ensures
        string_views(r@) == state_bases(prefix@, seq![state@]),
        r.len() == 1,
{
    let chain = [state];
    let r = build_state_bases(prefix, &chain);
    assert(chain@.map_values(|s: &str| s@) =~= seq![state@]);
    r
}

/// Builds the base paths of a state and its parent.
pub fn state_chain_2(prefix: &str, state: &str, parent: &str) -> (r: Vec<String>)
    ensures
        string_views(r@) == state_bases(prefix@, seq![state@, parent@]),
        r.len() == 2,
{
    let chain = [state, parent];
    let r = build_state_bases(prefix, &chain);
    assert(chain@.map_values(|s: &str| s@) =~= seq![state@, parent@]);
    r
}

/// Builds the base paths of a state, its parent and its grandparent.
pub fn state_chain_3(prefix: &str, state: &str, parent: &str, grandparent: &str) -> (r: Vec<String>)
    ensures
        string_views(r@) == state_bases(prefix@, seq![state@, parent@, grandparent@]),
        r.len() == 3,
{
    let chain = [state, parent, grandparent];
    let r = build_state_bases(prefix, &chain);
    assert(chain@.map_values(|s: &str| s@) =~= seq![state@, parent@, grandparent@]);
    r
}

} // verus!
