//! The configuration of one run: where to read, where to write, the palette
//! and the wallpaper.

use vstd::prelude::*;
use crate::context::{
    context_entries, context_of, json_object, lemma_context_keys, lemma_wallpaper_entry, write_json,
    Entry,
};
use crate::document::{parse_document, toml_document, Item};
use crate::error::{ConfigError, ConfigErrorView};
use crate::scan::{find_cursor_line, scan, scan_text};
use crate::structured::{
    palette_of, read_palette, read_text, read_wallpaper, text_field, wallpaper_of,
};
use crate::structures::colors::{Colors, ColorsView};
use crate::structures::wallpaper::{Wallpaper, WallpaperView};
use crate::text::chars_of;
use crate::utils::{document_type, RESOURCE_DUMP, STRUCTURED};

verus! {

/// The configuration of one run. A field that is `None` was not given.
#[derive(Debug, Clone, Hash, PartialEq, Eq)]
pub struct Config {
    /// The file to read the palette from.
    pub input: Option<String>,
    /// The directory to write rendered templates to.
    pub output_directory: Option<String>,
    pub colors: Option<Colors>,
    pub wallpaper: Option<Wallpaper>,
}

/// A configuration as a mathematical value.
pub struct ConfigView {
    pub input: Option<Seq<char>>,
    pub output_directory: Option<Seq<char>>,
    pub colors: Option<ColorsView>,
    pub wallpaper: Option<WallpaperView>,
}

/// What the command line gives: each field that is there takes the place of
/// what the configuration holds.
#[derive(Debug, Clone, PartialEq, Eq)]
pub struct Overrides {
    pub input: Option<String>,
    pub output: Option<String>,
    pub wallpaper: Option<String>,
    pub wallpaper_command: Option<Vec<String>>,
}

/// Overrides as a mathematical value.
pub struct OverridesView {
    pub input: Option<Seq<char>>,
    pub output: Option<Seq<char>>,
    pub wallpaper: Option<Seq<char>>,
    pub wallpaper_command: Option<Seq<Seq<char>>>,
}

impl View for Config {
    type V = ConfigView;

    open spec fn view(&self) -> ConfigView {
        ConfigView {
            input: self.input.deep_view(),
            output_directory: self.output_directory.deep_view(),
            colors: match self.colors {
                Some(p) => Some(p@),
                None => None,
            },
            wallpaper: match self.wallpaper {
                Some(w) => Some(w@),
                None => None,
            },
        }
    }
}

impl View for Overrides {
    type V = OverridesView;

    open spec fn view(&self) -> OverridesView {
        OverridesView {
            input: self.input.deep_view(),
            output: self.output.deep_view(),
            wallpaper: self.wallpaper.deep_view(),
            wallpaper_command: self.wallpaper_command.deep_view(),
        }
    }
}

/// `base` and `leaf` as one path: a separator stands between them unless
/// `base` is empty or ends in one.
pub open spec fn joined_path(base: Seq<char>, leaf: Seq<char>) -> Seq<char> {
    if base.len() == 0 || base.last() == '/' {
        base + leaf
    } else {
        base + seq!['/'] + leaf
    }
}

impl ConfigView {
    /// The configuration with nothing given.
    pub open spec fn empty() -> ConfigView {
        ConfigView { input: None, output_directory: None, colors: None, wallpaper: None }
    }

    /// The configuration of a user who has set nothing: the resource file and
    /// the cache directory under the home directory.
    pub open spec fn with_home(home: Seq<char>) -> ConfigView {
        ConfigView {
            input: Some(joined_path(home, ".Xresources"@)),
            output_directory: Some(joined_path(joined_path(home, ".cache"@), "colstract"@)),
            colors: None,
            wallpaper: None,
        }
    }

    /// The configuration that a table document holds: `input`,
    /// `output_directory`, the wallpaper and the palette, read in this order,
    /// or the error of the first that fails.
    pub open spec fn structured(doc: Item) -> Result<ConfigView, ConfigErrorView> {
        match text_field(doc, "input"@) {
            Err(e) => Err(e),
            Ok(input) => match text_field(doc, "output_directory"@) {
                Err(e) => Err(e),
                Ok(output_directory) => match wallpaper_of(doc) {
                    Err(e) => Err(e),
                    Ok(wallpaper) => match palette_of(doc) {
                        Err(e) => Err(e),
                        Ok(colors) => Ok(
                            ConfigView { input, output_directory, colors, wallpaper },
                        ),
                    },
                },
            },
        }
    }

    /// The configuration that the text of a table document holds.
    pub open spec fn from_toml(text: Seq<char>) -> Result<ConfigView, ConfigErrorView> {
        match toml_document(text) {
            Some(doc) => ConfigView::structured(doc),
            None => Err(ConfigErrorView::UnrecognizedFormat),
        }
    }

    /// The configuration that a resource dump holds: its palette and nothing
    /// else.
    pub open spec fn from_xresource(text: Seq<char>) -> ConfigView {
        ConfigView {
            input: None,
            output_directory: None,
            colors: Some(scan_text(text)),
            wallpaper: None,
        }
    }

    /// The configuration that a text of either kind holds.
    pub open spec fn from_text(text: Seq<char>) -> Result<ConfigView, ConfigErrorView> {
        if document_type(text) == STRUCTURED {
            ConfigView::from_toml(text)
        } else if document_type(text) == RESOURCE_DUMP {
            Ok(ConfigView::from_xresource(text))
        } else {
            Err(ConfigErrorView::UnrecognizedFormat)
        }
    }

    /// The palette that templates see: the configuration's own, or the
    /// default palette where it has none.
    pub open spec fn palette(self) -> ColorsView {
        match self.colors {
            Some(p) => p,
            None => ColorsView::default_palette(),
        }
    }

    /// The wallpaper path that templates see, empty where none is given.
    pub open spec fn wallpaper_path(self) -> Seq<char> {
        match self.wallpaper {
            Some(w) => match w.path {
                Some(path) => path,
                None => Seq::<char>::empty(),
            },
            None => Seq::<char>::empty(),
        }
    }

    /// The render context.
    pub open spec fn context(self) -> Seq<Entry> {
        context_entries(self.palette(), self.wallpaper_path())
    }

    /// The configuration after the command line's overrides: a new input
    /// drops the palette, so that it is read again from the new input; a
    /// wallpaper path or command goes into the wallpaper settings, which are
    /// made where there were none, switched on for a path and off for a
    /// command.
    pub open spec fn composed(self, o: OverridesView) -> ConfigView {
        let c1 = match o.input {
            Some(input) => ConfigView { input: Some(input), colors: None, ..self },
            None => self,
        };
        let c2 = match o.output {
            Some(output) => ConfigView { output_directory: Some(output), ..c1 },
            None => c1,
        };
        let c3 = match o.wallpaper {
            Some(path) => ConfigView {
                wallpaper: Some(
                    match c2.wallpaper {
                        Some(w) => WallpaperView { path: Some(path), ..w },
                        None => WallpaperView { enable: Some(true), path: Some(path), command: None },
                    },
                ),
                ..c2
            },
            None => c2,
        };
        match o.wallpaper_command {
            Some(command) => ConfigView {
                wallpaper: Some(
                    match c3.wallpaper {
                        Some(w) => WallpaperView { command: Some(command), ..w },
                        None => WallpaperView {
                            enable: Some(false),
                            path: None,
                            command: Some(command),
                        },
                    },
                ),
                ..c3
            },
            None => c3,
        }
    }

    /// The input whose text is still to be read: the configuration names an
    /// input and has no palette.
    pub open spec fn pending_input(self) -> Option<Seq<char>> {
        if self.colors is None {
            self.input
        } else {
            None
        }
    }
}

/// Puts a separator between `base` and `leaf` unless `base` is empty or ends
/// in one.
pub fn join_path(base: &str, leaf: &str) -> (path: String)
    ensures
        path@ == joined_path(base@, leaf@),
{
    let chars = chars_of(base);
    let mut path = String::from_str(base);
    if chars.len() > 0 && chars[chars.len() - 1] != '/' {
        path.push('/');
    }
    path.append(leaf);
    path
}

impl Config {
    /// The configuration with nothing given.
    pub fn empty() -> (c: Config)
        ensures
            c@ == ConfigView::empty(),
    {
        Config { input: None, output_directory: None, colors: None, wallpaper: None }
    }

    /// The configuration of a user who has set nothing, for the home
    /// directory given.
    pub fn with_home(home: &str) -> (c: Config)
        ensures
            c@ == ConfigView::with_home(home@),
    {
        let cache = join_path(home, ".cache");
        Config {
            input: Some(join_path(home, ".Xresources")),
            output_directory: Some(join_path(cache.as_str(), "colstract")),
            colors: None,
            wallpaper: None,
        }
    }

    /// Reads the configuration that a table document holds.
    pub fn from_document(doc: &Item) -> (r: Result<Config, ConfigError>)
        ensures
            match r {
                Ok(c) => ConfigView::structured(*doc) == Ok::<_, ConfigErrorView>(c@),
                Err(e) => ConfigView::structured(*doc) == Err::<ConfigView, _>(e@),
            },
    {
        let input = match read_text(doc, "input") {
            Ok(v) => v,
            Err(e) => {
                return Err(e);
            },
        };
        let output_directory = match read_text(doc, "output_directory") {
            Ok(v) => v,
            Err(e) => {
                return Err(e);
            },
        };
        let wallpaper = match read_wallpaper(doc) {
            Ok(v) => v,
            Err(e) => {
                return Err(e);
            },
        };
        let colors = match read_palette(doc) {
            Ok(v) => v,
            Err(e) => {
                return Err(e);
            },
        };
        Ok(Config { input, output_directory, colors, wallpaper })
    }

    /// Reads a configuration from the text of a table document. A text that
    /// is no table document is not recognized.
    pub fn from_toml_str(s: &str) -> (r: Result<Config, ConfigError>)
        ensures
            match r {
                Ok(c) => ConfigView::from_toml(s@) == Ok::<_, ConfigErrorView>(c@),
                Err(e) => ConfigView::from_toml(s@) == Err::<ConfigView, _>(e@),
            },
    {
        match parse_document(s) {
            Some(doc) => Config::from_document(&doc),
            None => Err(ConfigError::UnrecognizedFormat),
        }
    }

    /// Reads a configuration from a resource dump: every line that sets a
    /// color counts, every other line is passed over.
    pub fn from_xresource_str(s: &str) -> (c: Config)
        ensures
            c@ == ConfigView::from_xresource(s@),
    {
        Config { input: None, output_directory: None, colors: Some(scan(s)), wallpaper: None }
    }

    /// Reads a configuration from a text of either kind.
    pub fn from_text(s: &str) -> (r: Result<Config, ConfigError>)
        ensures
            match r {
                Ok(c) => ConfigView::from_text(s@) == Ok::<_, ConfigErrorView>(c@),
                Err(e) => ConfigView::from_text(s@) == Err::<ConfigView, _>(e@),
            },
    {
        match parse_document(s) {
            Some(doc) => Config::from_document(&doc),
            None => {
                if find_cursor_line(s) {
                    Ok(Config::from_xresource_str(s))
                } else {
                    Err(ConfigError::UnrecognizedFormat)
                }
            },
        }
    }

    /// Reads a configuration from a text of either kind, and falls back to
    /// the configuration given where the text holds none.
    pub fn from_text_or(s: &str, fallback: Config) -> (c: Config)
        ensures
            c@ == match ConfigView::from_text(s@) {
                Ok(v) => v,
                Err(_) => fallback@,
            },
    {
        match Config::from_text(s) {
            Ok(c) => c,
            Err(_) => fallback,
        }
    }

    /// The render context: for each slot of the palette its ten text forms,
    /// with the background's alpha before them and the wallpaper path after.
    pub fn render_context(&self) -> (out: Vec<(String, String)>)
        ensures
            out.deep_view() == self@.context(),
    {
        let default_palette = Colors::default();
        let palette = match &self.colors {
            Some(p) => p,
            None => &default_palette,
        };
        match &self.wallpaper {
            Some(Wallpaper { path: Some(path), .. }) => context_of(palette, path.as_str()),
            _ => {
                let out = context_of(palette, "");
                assert(""@ =~= Seq::<char>::empty()) by {
                    reveal_strlit("");
                }
                out
            },
        }
    }

    /// The render context as a JSON object of strings.
    pub fn to_json(&self) -> (out: String)
        ensures
            out@ == json_object(self@.context()),
    {
        let entries = self.render_context();
        write_json(&entries)
    }

    /// The input whose text is still to be read for its palette.
    pub fn pending_input(&self) -> (r: Option<&str>)
        ensures
            r.deep_view() == self@.pending_input(),
    {
        if self.colors.is_none() {
            match &self.input {
                Some(input) => Some(input.as_str()),
                None => None,
            }
        } else {
            None
        }
    }

    /// Takes the palette from the text of the input where the configuration
    /// has none of its own.
    pub fn adopt_colors(self, source: &str) -> (r: Result<Config, ConfigError>)
        ensures
            match r {
                Ok(c) => if self@.colors is Some {
                    c@ == self@
                } else {
                    ConfigView::from_text(source@) is Ok && c@ == (ConfigView {
                        colors: ConfigView::from_text(source@)->Ok_0.colors,
                        ..self@
                    })
                },
                Err(e) => self@.colors is None && ConfigView::from_text(source@) == Err::<
                    ConfigView,
                    _,
                >(e@),
            },
    {
        if self.colors.is_some() {
            return Ok(self);
        }
        match Config::from_text(source) {
            Ok(read) => Ok(
                Config {
                    input: self.input,
                    output_directory: self.output_directory,
                    colors: read.colors,
                    wallpaper: self.wallpaper,
                },
            ),
            Err(e) => Err(e),
        }
    }
}

/// Lays the command line's overrides over a configuration.
pub fn compose_config(overrides: Overrides, config: Config) -> (c: Config)
    ensures
        c@ == config@.composed(overrides@),
{
    let mut config = config;
    if let Some(input) = overrides.input {
        config.input = Some(input);
        config.colors = None;
    }
    if let Some(output) = overrides.output {
        config.output_directory = Some(output);
    }
    if let Some(path) = overrides.wallpaper {
        config.wallpaper = Some(
            match config.wallpaper {
                Some(w) => Wallpaper { enable: w.enable, path: Some(path), command: w.command },
                None => Wallpaper { enable: Some(true), path: Some(path), command: None },
            },
        );
    }
    if let Some(command) = overrides.wallpaper_command {
        config.wallpaper = Some(
            match config.wallpaper {
                Some(w) => Wallpaper { enable: w.enable, path: w.path, command: Some(command) },
                None => Wallpaper { enable: Some(false), path: None, command: Some(command) },
            },
        );
    }
    config
}

/// Two configurations with the same palette give render contexts that
/// differ in the `wallpaper` entry at most: both have the same 193 keys in
/// the same order, every entry but the last is the same in both, and the
/// last holds, under the key `wallpaper`, each one's wallpaper path.
pub proof fn lemma_context_differs_in_wallpaper_only(a: ConfigView, b: ConfigView)
    requires
        a.colors == b.colors,
    ensures
        a.context().len() == 193,
        b.context().len() == 193,
        forall|i: int| 0 <= i < 193 ==> (#[trigger] a.context()[i]).0 == b.context()[i].0,
        forall|i: int| 0 <= i < 192 ==> #[trigger] a.context()[i] == b.context()[i],
        a.context()[192] == ("wallpaper"@, a.wallpaper_path()),
        b.context()[192] == ("wallpaper"@, b.wallpaper_path()),
{
    lemma_wallpaper_entry(a.palette(), a.wallpaper_path(), b.wallpaper_path());
    lemma_context_keys(a.palette(), a.wallpaper_path(), b.palette(), b.wallpaper_path());
}

/// Every configuration gives a render context with the same 193 keys in the
/// same order; without a palette the values are those of opaque black.
pub proof fn lemma_context_key_set_is_fixed(a: ConfigView, b: ConfigView)
    ensures
        a.context().len() == 193,
        b.context().len() == 193,
        forall|i: int| 0 <= i < 193 ==> (#[trigger] a.context()[i]).0 == b.context()[i].0,
        a.colors is None ==> a.context() == (ConfigView {
            colors: Some(ColorsView::default_palette()),
            ..a
        }).context(),
{
    lemma_context_keys(a.palette(), a.wallpaper_path(), b.palette(), b.wallpaper_path());
}

/// Overrides that give nothing leave the configuration as it is, and a new
/// input always drops the palette.
pub proof fn lemma_composed(c: ConfigView, o: OverridesView)
    ensures
        o.input is None && o.output is None && o.wallpaper is None && o.wallpaper_command is None
            ==> c.composed(o) == c,
        o.input is Some ==> c.composed(o).colors is None && c.composed(o).input == o.input
            && c.composed(o).pending_input() == o.input,
        o.input is None ==> c.composed(o).colors == c.colors && c.composed(o).input == c.input,
        o.output is Some ==> c.composed(o).output_directory == o.output,
        o.wallpaper is Some ==> c.composed(o).wallpaper is Some && c.composed(o).wallpaper->0.path
            == o.wallpaper,
        o.wallpaper_command is Some ==> c.composed(o).wallpaper is Some && c.composed(
            o,
        ).wallpaper->0.command == o.wallpaper_command,
{
}

} // verus!
