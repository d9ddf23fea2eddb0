//! Install types: the kinds of file an OCS link can carry, and the
//! directory each kind is installed to.
//!
//! The kinds fall into five families. Each family resolves its own tokens
//! and knows nothing of the others; [`InstallType`] is a kind of any family.
//!
//! An install path is a template: it starts with a placeholder (`$HOME`,
//! `$XDG_DATA_HOME`, `$KDEHOME` or `$APP_DATA`, the directory that holds the
//! application's own data) which the installer fills in.
//!
//! Tokens of [`PersonalMedia`] are read in any letter case. The tokens of the
//! other families are read as they are written.
use crate::text::lowercase;
use crate::text::str_eq;
use crate::text::to_lowercase;
use vstd::prelude::*;

verus! {

/// Why a token names no install type.
#[derive(Debug, Clone, PartialEq, Eq, Hash)]
pub enum InstallTypeError {
    /// No install type of the family goes by the token. Holds the token as
    /// given.
    NoMatchingInstallType(String),
    /// The alias stands for no install type. Holds the alias.
    NoInstallTypeAlias(String),
}

/// The mathematical content of an [`InstallTypeError`].
pub enum InstallTypeErrorView {
    NoMatchingInstallType(Seq<char>),
    NoInstallTypeAlias(Seq<char>),
}

impl View for InstallTypeError {
    type V = InstallTypeErrorView;

    open spec fn view(&self) -> InstallTypeErrorView {
        match *self {
            InstallTypeError::NoMatchingInstallType(token) => {
                InstallTypeErrorView::NoMatchingInstallType(token@)
            },
            InstallTypeError::NoInstallTypeAlias(alias) => {
                InstallTypeErrorView::NoInstallTypeAlias(alias@)
            },
        }
    }
}

/// Files of the user's own: documents, music, pictures and the like.
#[derive(Debug, Clone, Copy, PartialEq, Eq, Hash)]
pub enum PersonalMedia {
    Bin,
    Books,
    Comics,
    Documents,
    Downloads,
    Music,
    Pictures,
    Videos,
    Wallpapers,
}

impl PersonalMedia {
    /// The token that stands for the kind in a link.
    pub open spec fn token(self) -> Seq<char> {
        match self {
            PersonalMedia::Bin => "bin"@,
            PersonalMedia::Books => "books"@,
            PersonalMedia::Comics => "comics"@,
            PersonalMedia::Documents => "documents"@,
            PersonalMedia::Downloads => "downloads"@,
            PersonalMedia::Music => "music"@,
            PersonalMedia::Pictures => "pictures"@,
            PersonalMedia::Videos => "videos"@,
            PersonalMedia::Wallpapers => "wallpapers"@,
        }
    }

    /// The template of the directory that files of the kind are installed to.
    pub open spec fn install_path(self) -> Seq<char> {
        match self {
            PersonalMedia::Bin => "$HOME/.local/bin"@,
            PersonalMedia::Books => "$APP_DATA/books"@,
            PersonalMedia::Comics => "$APP_DATA/comics"@,
            PersonalMedia::Documents => "$HOME/Documents"@,
            PersonalMedia::Downloads => "$HOME/Downloads"@,
            PersonalMedia::Music => "$HOME/Music"@,
            PersonalMedia::Pictures => "$HOME/Pictures"@,
            PersonalMedia::Videos => "$HOME/Videos"@,
            PersonalMedia::Wallpapers => "$XDG_DATA_HOME/wallpapers"@,
        }
    }

    /// The kind that a lower-case token names, if it names one.
    pub open spec fn named(lowered: Seq<char>) -> Option<PersonalMedia> {
        if lowered == "bin"@ {
            Some(PersonalMedia::Bin)
        } else if lowered == "books"@ {
            Some(PersonalMedia::Books)
        } else if lowered == "comics"@ {
            Some(PersonalMedia::Comics)
        } else if lowered == "documents"@ {
            Some(PersonalMedia::Documents)
        } else if lowered == "downloads"@ {
            Some(PersonalMedia::Downloads)
        } else if lowered == "music"@ {
            Some(PersonalMedia::Music)
        } else if lowered == "pictures"@ {
            Some(PersonalMedia::Pictures)
        } else if lowered == "videos"@ {
            Some(PersonalMedia::Videos)
        } else if lowered == "wallpapers"@ {
            Some(PersonalMedia::Wallpapers)
        } else {
            None
        }
    }

    /// The kind that `token` names in any letter case, or the error that
    /// holds `token` as it was given.
    pub open spec fn resolved(token: Seq<char>) -> Result<PersonalMedia, InstallTypeErrorView> {
        match PersonalMedia::named(lowercase(token)) {
            Some(kind) => Ok(kind),
            None => Err(InstallTypeErrorView::NoMatchingInstallType(token)),
        }
    }

    /// Each kind is reached by its own token: no token of the family stands
    /// in the way of another.
    pub proof fn lemma_token_names_kind(self)
        ensures
            PersonalMedia::named(self.token()) == Some(self),
    {
        reveal_strlit("bin");
        reveal_strlit("books");
        reveal_strlit("comics");
        reveal_strlit("documents");
        reveal_strlit("downloads");
        reveal_strlit("music");
        reveal_strlit("pictures");
        reveal_strlit("videos");
        reveal_strlit("wallpapers");
        // Tokens of unequal length differ, and those of equal length differ in
        // some letter.
        assert("bin"@.len() == 3);
        assert("books"@.len() == 5);
        assert("comics"@.len() == 6);
        assert("documents"@.len() == 9);
        assert("downloads"@.len() == 9);
        assert("music"@.len() == 5);
        assert("pictures"@.len() == 8);
        assert("videos"@.len() == 6);
        assert("wallpapers"@.len() == 10);
        assert("books"@[0] == 'b' && "music"@[0] == 'm');
        assert("comics"@[0] == 'c' && "videos"@[0] == 'v');
        assert("documents"@[2] == 'c' && "downloads"@[2] == 'w');
    }

    /// The template of the directory that files of the kind are installed to.
    pub fn get_install_path(&self) -> (path: String)
        ensures
            path@ == self.install_path(),
    {
        match self {
            PersonalMedia::Bin => "$HOME/.local/bin".to_owned(),
            PersonalMedia::Books => "$APP_DATA/books".to_owned(),
            PersonalMedia::Comics => "$APP_DATA/comics".to_owned(),
            PersonalMedia::Documents => "$HOME/Documents".to_owned(),
            PersonalMedia::Downloads => "$HOME/Downloads".to_owned(),
            PersonalMedia::Music => "$HOME/Music".to_owned(),
            PersonalMedia::Pictures => "$HOME/Pictures".to_owned(),
            PersonalMedia::Videos => "$HOME/Videos".to_owned(),
            PersonalMedia::Wallpapers => "$XDG_DATA_HOME/wallpapers".to_owned(),
        }
    }

    /// Letter case does not count: two tokens with one lowercase form name
    /// the same kind, or neither names one.
    pub proof fn lemma_any_letter_case(token: Seq<char>, other: Seq<char>)
        requires
            lowercase(token) == lowercase(other),
        ensures
            PersonalMedia::resolved(token) is Ok <==> PersonalMedia::resolved(other) is Ok,
            PersonalMedia::resolved(token) matches Ok(kind) ==> PersonalMedia::resolved(other)
                == Ok::<PersonalMedia, InstallTypeErrorView>(kind),
    {
    }

    /// Reads a kind from a token that is already in lower case.
    pub fn from_lowercase(lowered: &str) -> (kind: Option<PersonalMedia>)
        ensures
            kind == PersonalMedia::named(lowered@),
    {
        if str_eq(lowered, "bin") {
            Some(PersonalMedia::Bin)
        } else if str_eq(lowered, "books") {
            Some(PersonalMedia::Books)
        } else if str_eq(lowered, "comics") {
            Some(PersonalMedia::Comics)
        } else if str_eq(lowered, "documents") {
            Some(PersonalMedia::Documents)
        } else if str_eq(lowered, "downloads") {
            Some(PersonalMedia::Downloads)
        } else if str_eq(lowered, "music") {
            Some(PersonalMedia::Music)
        } else if str_eq(lowered, "pictures") {
            Some(PersonalMedia::Pictures)
        } else if str_eq(lowered, "videos") {
            Some(PersonalMedia::Videos)
        } else if str_eq(lowered, "wallpapers") {
            Some(PersonalMedia::Wallpapers)
        } else {
            None
        }
    }

    /// Reads a kind from a token, whatever its letter case.
    pub fn try_from(value: &str) -> (outcome: Result<PersonalMedia, InstallTypeError>)
        ensures
            match outcome {
                Ok(kind) => PersonalMedia::resolved(value@) == Ok::<
                    PersonalMedia,
                    InstallTypeErrorView,
                >(kind),
                Err(error) => PersonalMedia::resolved(value@) == Err::<
                    PersonalMedia,
                    InstallTypeErrorView,
                >(error@),
            },
    {
        let lowered = to_lowercase(value);
        match PersonalMedia::from_lowercase(lowered.as_str()) {
            Some(kind) => Ok(kind),
            None => Err(InstallTypeError::NoMatchingInstallType(value.to_owned())),
        }
    }
}

/// The look of the desktop as a whole: colours, cursors, fonts, icons, themes.
#[derive(Debug, Clone, Copy, PartialEq, Eq, Hash)]
pub enum Styling {
    ColorSchemes,
    Cursors,
    Emoticons,
    Fonts,
    Icons,
    Themes,
}

impl Styling {
    /// The token that stands for the kind in a link.
    pub open spec fn token(self) -> Seq<char> {
        match self {
            Styling::ColorSchemes => "color_schemes"@,
            Styling::Cursors => "cursors"@,
            Styling::Emoticons => "emoticons"@,
            Styling::Fonts => "fonts"@,
            Styling::Icons => "icons"@,
            Styling::Themes => "themes"@,
        }
    }

    /// The template of the directory that files of the kind are installed to.
    pub open spec fn install_path(self) -> Seq<char> {
        match self {
            Styling::ColorSchemes => "$XDG_DATA_HOME/color-schemes"@,
            Styling::Cursors => "$HOME/.icons"@,
            Styling::Emoticons => "$XDG_DATA_HOME/emoticons"@,
            Styling::Fonts => "$HOME/.fonts"@,
            Styling::Icons => "$XDG_DATA_HOME/icons"@,
            Styling::Themes => "$HOME/.themes"@,
        }
    }

    /// The kind that a token names, if it names one. A kind may go by more
    /// than one token.
    pub open spec fn named(token: Seq<char>) -> Option<Styling> {
        if token == "color_schemes"@ {
            Some(Styling::ColorSchemes)
        } else if token == "cursors"@ {
            Some(Styling::Cursors)
        } else if token == "emoticons"@ {
            Some(Styling::Emoticons)
        } else if token == "fonts"@ {
            Some(Styling::Fonts)
        } else if token == "icons"@ {
            Some(Styling::Icons)
        } else if token == "themes"@ || token == "xfwm4_themes"@ || token == "openbox_themes"@ {
            Some(Styling::Themes)
        } else {
            None
        }
    }

    /// The kind that `token` names, or the error that holds `token`.
    pub open spec fn resolved(token: Seq<char>) -> Result<Styling, InstallTypeErrorView> {
        match Styling::named(token) {
            Some(kind) => Ok(kind),
            None => Err(InstallTypeErrorView::NoMatchingInstallType(token)),
        }
    }

    /// Each kind is reached by its own token: no token of the family stands
    /// in the way of another.
    pub proof fn lemma_token_names_kind(self)
        ensures
            Styling::named(self.token()) == Some(self),
    {
        reveal_strlit("color_schemes");
        reveal_strlit("cursors");
        reveal_strlit("emoticons");
        reveal_strlit("fonts");
        reveal_strlit("icons");
        reveal_strlit("themes");
        // Tokens of unequal length differ, and those of equal length differ in
        // some letter.
        assert("color_schemes"@.len() == 13);
        assert("cursors"@.len() == 7);
        assert("emoticons"@.len() == 9);
        assert("fonts"@.len() == 5);
        assert("icons"@.len() == 5);
        assert("themes"@.len() == 6);
        assert("fonts"@[0] == 'f' && "icons"@[0] == 'i');
    }

    /// Themes of several window managers are installed as plain themes:
    /// `xfwm4_themes` and `openbox_themes` name the kind that `themes` names.
    pub proof fn lemma_themes_aliases()
        ensures
            Styling::named("themes"@) == Some(Styling::Themes),
            Styling::named("xfwm4_themes"@) == Some(Styling::Themes),
            Styling::named("openbox_themes"@) == Some(Styling::Themes),
    {
        Styling::Themes.lemma_token_names_kind();
        reveal_strlit("color_schemes");
        reveal_strlit("cursors");
        reveal_strlit("emoticons");
        reveal_strlit("fonts");
        reveal_strlit("icons");
        reveal_strlit("xfwm4_themes");
        reveal_strlit("openbox_themes");
        assert("color_schemes"@.len() == 13);
        assert("cursors"@.len() == 7);
        assert("emoticons"@.len() == 9);
        assert("fonts"@.len() == 5);
        assert("icons"@.len() == 5);
        assert("xfwm4_themes"@.len() == 12);
        assert("openbox_themes"@.len() == 14);
    }

    /// The template of the directory that files of the kind are installed to.
    pub fn get_install_path(&self) -> (path: String)
        ensures
            path@ == self.install_path(),
    {
        match self {
            Styling::ColorSchemes => "$XDG_DATA_HOME/color-schemes".to_owned(),
            Styling::Cursors => "$HOME/.icons".to_owned(),
            Styling::Emoticons => "$XDG_DATA_HOME/emoticons".to_owned(),
            Styling::Fonts => "$HOME/.fonts".to_owned(),
            Styling::Icons => "$XDG_DATA_HOME/icons".to_owned(),
            Styling::Themes => "$HOME/.themes".to_owned(),
        }
    }

    /// Reads a kind from a token, which must be written as the family
    /// writes it: letter case counts.
    pub fn try_from(value: &str) -> (outcome: Result<Styling, InstallTypeError>)
        ensures
            match outcome {
                Ok(kind) => Styling::resolved(value@) == Ok::<Styling, InstallTypeErrorView>(
                    kind,
                ),
                Err(error) => Styling::resolved(value@) == Err::<Styling, InstallTypeErrorView>(
                    error@,
                ),
            },
    {
        if str_eq(value, "color_schemes") {
            Ok(Styling::ColorSchemes)
        } else if str_eq(value, "cursors") {
            Ok(Styling::Cursors)
        } else if str_eq(value, "emoticons") {
            Ok(Styling::Emoticons)
        } else if str_eq(value, "fonts") {
            Ok(Styling::Fonts)
        } else if str_eq(value, "icons") {
            Ok(Styling::Icons)
        } else if str_eq(value, "themes") || str_eq(value, "xfwm4_themes") || str_eq(
            value,
            "openbox_themes",
        ) {
            Ok(Styling::Themes)
        } else {
            Err(InstallTypeError::NoMatchingInstallType(value.to_owned()))
        }
    }
}

/// Themes and extensions of single window managers and shells.
#[derive(Debug, Clone, Copy, PartialEq, Eq, Hash)]
pub enum WMThemes {
    CairoClockThemes,
    CinnamonApplets,
    CinnamonDesklets,
    CinnamonExtensions,
    EmeraldThemes,
    EnlightenmentBackgrounds,
    EnlightenmentThemes,
    FluxboxStyles,
    GNOMEShellExtensions,
    IceWMThemes,
    PekWMThemes,
}

impl WMThemes {
    /// The token that stands for the kind in a link.
    pub open spec fn token(self) -> Seq<char> {
        match self {
            WMThemes::CairoClockThemes => "cairo_clock_themes"@,
            WMThemes::CinnamonApplets => "cinnamon_applets"@,
            WMThemes::CinnamonDesklets => "cinnamon_desklets"@,
            WMThemes::CinnamonExtensions => "cinnamon_extensions"@,
            WMThemes::EmeraldThemes => "emerald_themes"@,
            WMThemes::EnlightenmentBackgrounds => "enlightenment_backgrounds"@,
            WMThemes::EnlightenmentThemes => "enlightenment_themes"@,
            WMThemes::FluxboxStyles => "fluxbox_styles"@,
            WMThemes::GNOMEShellExtensions => "gnome_shell_extensions"@,
            WMThemes::IceWMThemes => "icewm_themes"@,
            WMThemes::PekWMThemes => "pekwm_themes"@,
        }
    }

    /// The template of the directory that files of the kind are installed to.
    pub open spec fn install_path(self) -> Seq<char> {
        match self {
            WMThemes::CairoClockThemes => "$HOME/.cairo-clock/themes"@,
            WMThemes::CinnamonApplets => "$XDG_DATA_HOME/cinnamon/applets"@,
            WMThemes::CinnamonDesklets => "$XDG_DATA_HOME/cinnamon/desklets"@,
            WMThemes::CinnamonExtensions => "$XDG_DATA_HOME/cinnamon/extensions"@,
            WMThemes::EmeraldThemes => "$HOME/.emerald/themes"@,
            WMThemes::EnlightenmentBackgrounds => "$HOME/.e/e/backgrounds"@,
            WMThemes::EnlightenmentThemes => "$HOME/.e/e/themes"@,
            WMThemes::FluxboxStyles => "$HOME/.fluxbox/styles"@,
            WMThemes::GNOMEShellExtensions => "$XDG_DATA_HOME/gnome-shell/extensions"@,
            WMThemes::IceWMThemes => "$HOME/.icewm/themes"@,
            WMThemes::PekWMThemes => "$HOME/.pekwm/themes"@,
        }
    }

    /// The kind that a token names, if it names one.
    pub open spec fn named(token: Seq<char>) -> Option<WMThemes> {
        if token == "cairo_clock_themes"@ {
            Some(WMThemes::CairoClockThemes)
        } else if token == "cinnamon_applets"@ {
            Some(WMThemes::CinnamonApplets)
        } else if token == "cinnamon_desklets"@ {
            Some(WMThemes::CinnamonDesklets)
        } else if token == "cinnamon_extensions"@ {
            Some(WMThemes::CinnamonExtensions)
        } else if token == "emerald_themes"@ {
            Some(WMThemes::EmeraldThemes)
        } else if token == "enlightenment_backgrounds"@ {
            Some(WMThemes::EnlightenmentBackgrounds)
        } else if token == "enlightenment_themes"@ {
            Some(WMThemes::EnlightenmentThemes)
        } else if token == "fluxbox_styles"@ {
            Some(WMThemes::FluxboxStyles)
        } else if token == "gnome_shell_extensions"@ {
            Some(WMThemes::GNOMEShellExtensions)
        } else if token == "icewm_themes"@ {
            Some(WMThemes::IceWMThemes)
        } else if token == "pekwm_themes"@ {
            Some(WMThemes::PekWMThemes)
        } else {
            None
        }
    }

    /// The kind that `token` names, or the error that holds `token`.
    pub open spec fn resolved(token: Seq<char>) -> Result<WMThemes, InstallTypeErrorView> {
        match WMThemes::named(token) {
            Some(kind) => Ok(kind),
            None => Err(InstallTypeErrorView::NoMatchingInstallType(token)),
        }
    }

    /// Each kind is reached by its own token: no token of the family stands
    /// in the way of another.
    pub proof fn lemma_token_names_kind(self)
        ensures
            WMThemes::named(self.token()) == Some(self),
    {
        reveal_strlit("cairo_clock_themes");
        reveal_strlit("cinnamon_applets");
        reveal_strlit("cinnamon_desklets");
        reveal_strlit("cinnamon_extensions");
        reveal_strlit("emerald_themes");
        reveal_strlit("enlightenment_backgrounds");
        reveal_strlit("enlightenment_themes");
        reveal_strlit("fluxbox_styles");
        reveal_strlit("gnome_shell_extensions");
        reveal_strlit("icewm_themes");
        reveal_strlit("pekwm_themes");
        // Tokens of unequal length differ, and those of equal length differ in
        // some letter.
        assert("cairo_clock_themes"@.len() == 18);
        assert("cinnamon_applets"@.len() == 16);
        assert("cinnamon_desklets"@.len() == 17);
        assert("cinnamon_extensions"@.len() == 19);
        assert("emerald_themes"@.len() == 14);
        assert("enlightenment_backgrounds"@.len() == 25);
        assert("enlightenment_themes"@.len() == 20);
        assert("fluxbox_styles"@.len() == 14);
        assert("gnome_shell_extensions"@.len() == 22);
        assert("icewm_themes"@.len() == 12);
        assert("pekwm_themes"@.len() == 12);
        assert("icewm_themes"@[0] == 'i' && "pekwm_themes"@[0] == 'p');
        assert("emerald_themes"@[0] == 'e' && "fluxbox_styles"@[0] == 'f');
    }

    /// The template of the directory that files of the kind are installed to.
    pub fn get_install_path(&self) -> (path: String)
        ensures
            path@ == self.install_path(),
    {
        match self {
            WMThemes::CairoClockThemes => "$HOME/.cairo-clock/themes".to_owned(),
            WMThemes::CinnamonApplets => "$XDG_DATA_HOME/cinnamon/applets".to_owned(),
            WMThemes::CinnamonDesklets => "$XDG_DATA_HOME/cinnamon/desklets".to_owned(),
            WMThemes::CinnamonExtensions => "$XDG_DATA_HOME/cinnamon/extensions".to_owned(),
            WMThemes::EmeraldThemes => "$HOME/.emerald/themes".to_owned(),
            WMThemes::EnlightenmentBackgrounds => "$HOME/.e/e/backgrounds".to_owned(),
            WMThemes::EnlightenmentThemes => "$HOME/.e/e/themes".to_owned(),
            WMThemes::FluxboxStyles => "$HOME/.fluxbox/styles".to_owned(),
            WMThemes::GNOMEShellExtensions => "$XDG_DATA_HOME/gnome-shell/extensions".to_owned(),
            WMThemes::IceWMThemes => "$HOME/.icewm/themes".to_owned(),
            WMThemes::PekWMThemes => "$HOME/.pekwm/themes".to_owned(),
        }
    }

    /// Reads a kind from a token, which must be written as the family
    /// writes it: letter case counts.
    pub fn try_from(value: &str) -> (outcome: Result<WMThemes, InstallTypeError>)
        ensures
            match outcome {
                Ok(kind) => WMThemes::resolved(value@) == Ok::<WMThemes, InstallTypeErrorView>(
                    kind,
                ),
                Err(error) => WMThemes::resolved(value@) == Err::<WMThemes, InstallTypeErrorView>(
                    error@,
                ),
            },
    {
        if str_eq(value, "cairo_clock_themes") {
            Ok(WMThemes::CairoClockThemes)
        } else if str_eq(value, "cinnamon_applets") {
            Ok(WMThemes::CinnamonApplets)
        } else if str_eq(value, "cinnamon_desklets") {
            Ok(WMThemes::CinnamonDesklets)
        } else if str_eq(value, "cinnamon_extensions") {
            Ok(WMThemes::CinnamonExtensions)
        } else if str_eq(value, "emerald_themes") {
            Ok(WMThemes::EmeraldThemes)
        } else if str_eq(value, "enlightenment_backgrounds") {
            Ok(WMThemes::EnlightenmentBackgrounds)
        } else if str_eq(value, "enlightenment_themes") {
            Ok(WMThemes::EnlightenmentThemes)
        } else if str_eq(value, "fluxbox_styles") {
            Ok(WMThemes::FluxboxStyles)
        } else if str_eq(value, "gnome_shell_extensions") {
            Ok(WMThemes::GNOMEShellExtensions)
        } else if str_eq(value, "icewm_themes") {
            Ok(WMThemes::IceWMThemes)
        } else if str_eq(value, "pekwm_themes") {
            Ok(WMThemes::PekWMThemes)
        } else {
            Err(InstallTypeError::NoMatchingInstallType(value.to_owned()))
        }
    }
}

/// Assets of the KDE desktop and of Qt applications.
#[derive(Debug, Clone, Copy, PartialEq, Eq, Hash)]
pub enum QtGeneral {
    AmarokScripts,
    AuroraeThemes,
    DekoratorThemes,
    KwinEffects,
    KwinScripts,
    KwinTabbox,
    PlasmaDesktopthemes,
    PlasmaLookAndFeel,
    PlasmaPlasmoids,
    QtCurve,
    YakuakeSkins,
}

impl QtGeneral {
    /// The token that stands for the kind in a link.
    pub open spec fn token(self) -> Seq<char> {
        match self {
            QtGeneral::AmarokScripts => "amarok_scripts"@,
            QtGeneral::AuroraeThemes => "aurorae_themes"@,
            QtGeneral::DekoratorThemes => "dekorator_themes"@,
            QtGeneral::KwinEffects => "kwin_effects"@,
            QtGeneral::KwinScripts => "kwin_scripts"@,
            QtGeneral::KwinTabbox => "kwin_tabbox"@,
            QtGeneral::PlasmaDesktopthemes => "plasma_desktopthemes"@,
            QtGeneral::PlasmaLookAndFeel => "plasma_look_and_feel"@,
            QtGeneral::PlasmaPlasmoids => "plasma_plasmoids"@,
            QtGeneral::QtCurve => "qtcurve"@,
            QtGeneral::YakuakeSkins => "yakuake_skins"@,
        }
    }

    /// The template of the directory that files of the kind are installed to.
    pub open spec fn install_path(self) -> Seq<char> {
        match self {
            QtGeneral::AmarokScripts => "$KDEHOME/share/apps/amarok/scripts"@,
            QtGeneral::AuroraeThemes => "$XDG_DATA_HOME/aurorae/themes"@,
            QtGeneral::DekoratorThemes => "$XDG_DATA_HOME/deKorator/themes"@,
            QtGeneral::KwinEffects => "$XDG_DATA_HOME/kwin/effects"@,
            QtGeneral::KwinScripts => "$XDG_DATA_HOME/kwin/scripts"@,
            QtGeneral::KwinTabbox => "$XDG_DATA_HOME/kwin/tabbox"@,
            QtGeneral::PlasmaDesktopthemes => "$XDG_DATA_HOME/plasma/desktoptheme"@,
            QtGeneral::PlasmaLookAndFeel => "$XDG_DATA_HOME/plasma/look-and-feel"@,
            QtGeneral::PlasmaPlasmoids => "$XDG_DATA_HOME/plasma/plasmoids"@,
            QtGeneral::QtCurve => "$XDG_DATA_HOME/QtCurve"@,
            QtGeneral::YakuakeSkins => "$KDEHOME/share/apps/yakuake/skins"@,
        }
    }

    /// The kind that a token names, if it names one.
    pub open spec fn named(token: Seq<char>) -> Option<QtGeneral> {
        if token == "amarok_scripts"@ {
            Some(QtGeneral::AmarokScripts)
        } else if token == "aurorae_themes"@ {
            Some(QtGeneral::AuroraeThemes)
        } else if token == "dekorator_themes"@ {
            Some(QtGeneral::DekoratorThemes)
        } else if token == "kwin_effects"@ {
            Some(QtGeneral::KwinEffects)
        } else if token == "kwin_scripts"@ {
            Some(QtGeneral::KwinScripts)
        } else if token == "kwin_tabbox"@ {
            Some(QtGeneral::KwinTabbox)
        } else if token == "plasma_desktopthemes"@ {
            Some(QtGeneral::PlasmaDesktopthemes)
        } else if token == "plasma_look_and_feel"@ {
            Some(QtGeneral::PlasmaLookAndFeel)
        } else if token == "plasma_plasmoids"@ {
            Some(QtGeneral::PlasmaPlasmoids)
        } else if token == "qtcurve"@ {
            Some(QtGeneral::QtCurve)
        } else if token == "yakuake_skins"@ {
            Some(QtGeneral::YakuakeSkins)
        } else {
            None
        }
    }

    /// The kind that `token` names, or the error that holds `token`.
    pub open spec fn resolved(token: Seq<char>) -> Result<QtGeneral, InstallTypeErrorView> {
        match QtGeneral::named(token) {
            Some(kind) => Ok(kind),
            None => Err(InstallTypeErrorView::NoMatchingInstallType(token)),
        }
    }

    /// Each kind is reached by its own token: no token of the family stands
    /// in the way of another.
    pub proof fn lemma_token_names_kind(self)
        ensures
            QtGeneral::named(self.token()) == Some(self),
    {
        reveal_strlit("amarok_scripts");
        reveal_strlit("aurorae_themes");
        reveal_strlit("dekorator_themes");
        reveal_strlit("kwin_effects");
        reveal_strlit("kwin_scripts");
        reveal_strlit("kwin_tabbox");
        reveal_strlit("plasma_desktopthemes");
        reveal_strlit("plasma_look_and_feel");
        reveal_strlit("plasma_plasmoids");
        reveal_strlit("qtcurve");
        reveal_strlit("yakuake_skins");
        // Tokens of unequal length differ, and those of equal length differ in
        // some letter.
        assert("amarok_scripts"@.len() == 14);
        assert("aurorae_themes"@.len() == 14);
        assert("dekorator_themes"@.len() == 16);
        assert("kwin_effects"@.len() == 12);
        assert("kwin_scripts"@.len() == 12);
        assert("kwin_tabbox"@.len() == 11);
        assert("plasma_desktopthemes"@.len() == 20);
        assert("plasma_look_and_feel"@.len() == 20);
        assert("plasma_plasmoids"@.len() == 16);
        assert("qtcurve"@.len() == 7);
        assert("yakuake_skins"@.len() == 13);
        assert("kwin_effects"@[5] == 'e' && "kwin_scripts"@[5] == 's');
        assert("amarok_scripts"@[1] == 'm' && "aurorae_themes"@[1] == 'u');
        assert("dekorator_themes"@[0] == 'd' && "plasma_plasmoids"@[0] == 'p');
        assert("plasma_desktopthemes"@[7] == 'd' && "plasma_look_and_feel"@[7] == 'l');
    }

    /// The template of the directory that files of the kind are installed to.
    pub fn get_install_path(&self) -> (path: String)
        ensures
            path@ == self.install_path(),
    {
        match self {
            QtGeneral::AmarokScripts => "$KDEHOME/share/apps/amarok/scripts".to_owned(),
            QtGeneral::AuroraeThemes => "$XDG_DATA_HOME/aurorae/themes".to_owned(),
            QtGeneral::DekoratorThemes => "$XDG_DATA_HOME/deKorator/themes".to_owned(),
            QtGeneral::KwinEffects => "$XDG_DATA_HOME/kwin/effects".to_owned(),
            QtGeneral::KwinScripts => "$XDG_DATA_HOME/kwin/scripts".to_owned(),
            QtGeneral::KwinTabbox => "$XDG_DATA_HOME/kwin/tabbox".to_owned(),
            QtGeneral::PlasmaDesktopthemes => "$XDG_DATA_HOME/plasma/desktoptheme".to_owned(),
            QtGeneral::PlasmaLookAndFeel => "$XDG_DATA_HOME/plasma/look-and-feel".to_owned(),
            QtGeneral::PlasmaPlasmoids => "$XDG_DATA_HOME/plasma/plasmoids".to_owned(),
            QtGeneral::QtCurve => "$XDG_DATA_HOME/QtCurve".to_owned(),
            QtGeneral::YakuakeSkins => "$KDEHOME/share/apps/yakuake/skins".to_owned(),
        }
    }

    /// Reads a kind from a token, which must be written as the family
    /// writes it: letter case counts.
    pub fn try_from(value: &str) -> (outcome: Result<QtGeneral, InstallTypeError>)
        ensures
            match outcome {
                Ok(kind) => QtGeneral::resolved(value@) == Ok::<QtGeneral, InstallTypeErrorView>(
                    kind,
                ),
                Err(error) => QtGeneral::resolved(value@) == Err::<QtGeneral, InstallTypeErrorView>(
                    error@,
                ),
            },
    {
        if str_eq(value, "amarok_scripts") {
            Ok(QtGeneral::AmarokScripts)
        } else if str_eq(value, "aurorae_themes") {
            Ok(QtGeneral::AuroraeThemes)
        } else if str_eq(value, "dekorator_themes") {
            Ok(QtGeneral::DekoratorThemes)
        } else if str_eq(value, "kwin_effects") {
            Ok(QtGeneral::KwinEffects)
        } else if str_eq(value, "kwin_scripts") {
            Ok(QtGeneral::KwinScripts)
        } else if str_eq(value, "kwin_tabbox") {
            Ok(QtGeneral::KwinTabbox)
        } else if str_eq(value, "plasma_desktopthemes") {
            Ok(QtGeneral::PlasmaDesktopthemes)
        } else if str_eq(value, "plasma_look_and_feel") {
            Ok(QtGeneral::PlasmaLookAndFeel)
        } else if str_eq(value, "plasma_plasmoids") {
            Ok(QtGeneral::PlasmaPlasmoids)
        } else if str_eq(value, "qtcurve") {
            Ok(QtGeneral::QtCurve)
        } else if str_eq(value, "yakuake_skins") {
            Ok(QtGeneral::YakuakeSkins)
        } else {
            Err(InstallTypeError::NoMatchingInstallType(value.to_owned()))
        }
    }
}

/// Assets of single applications.
#[derive(Debug, Clone, Copy, PartialEq, Eq, Hash)]
pub enum AppSpecific {
    NautiliusScripts,
}

impl AppSpecific {
    /// The token that stands for the kind in a link.
    pub open spec fn token(self) -> Seq<char> {
        match self {
            AppSpecific::NautiliusScripts => "nautilus_scripts"@,
        }
    }

    /// The template of the directory that files of the kind are installed to.
    pub open spec fn install_path(self) -> Seq<char> {
        match self {
            AppSpecific::NautiliusScripts => "$XDG_DATA_HOME/nautilus/scripts"@,
        }
    }

    /// The kind that a token names, if it names one.
    pub open spec fn named(token: Seq<char>) -> Option<AppSpecific> {
        if token == "nautilus_scripts"@ {
            Some(AppSpecific::NautiliusScripts)
        } else {
            None
        }
    }

    /// The kind that `token` names, or the error that holds `token`.
    pub open spec fn resolved(token: Seq<char>) -> Result<AppSpecific, InstallTypeErrorView> {
        match AppSpecific::named(token) {
            Some(kind) => Ok(kind),
            None => Err(InstallTypeErrorView::NoMatchingInstallType(token)),
        }
    }

    /// Each kind is reached by its own token: no token of the family stands
    /// in the way of another.
    pub proof fn lemma_token_names_kind(self)
        ensures
            AppSpecific::named(self.token()) == Some(self),
    {
    }

    /// The template of the directory that files of the kind are installed to.
    pub fn get_install_path(&self) -> (path: String)
        ensures
            path@ == self.install_path(),
    {
        match self {
            AppSpecific::NautiliusScripts => "$XDG_DATA_HOME/nautilus/scripts".to_owned(),
        }
    }

    /// Reads a kind from a token, which must be written as the family
    /// writes it: letter case counts.
    pub fn try_from(value: &str) -> (outcome: Result<AppSpecific, InstallTypeError>)
        ensures
            match outcome {
                Ok(kind) => AppSpecific::resolved(value@) == Ok::<
                    AppSpecific,
                    InstallTypeErrorView,
                >(kind),
                Err(error) => AppSpecific::resolved(value@) == Err::<
                    AppSpecific,
                    InstallTypeErrorView,
                >(error@),
            },
    {
        if str_eq(value, "nautilus_scripts") {
            Ok(AppSpecific::NautiliusScripts)
        } else {
            Err(InstallTypeError::NoMatchingInstallType(value.to_owned()))
        }
    }
}

/// An install type of any family.
#[derive(Debug, Clone, Copy, PartialEq, Eq, Hash)]
pub enum InstallType {
    PersonalMedia(PersonalMedia),
    Styling(Styling),
    WMThemes(WMThemes),
    QtGeneral(QtGeneral),
    AppSpecific(AppSpecific),
}

impl InstallType {
    /// The template of the directory that files of the kind are installed to:
    /// the one its family gives.
    pub open spec fn install_path(self) -> Seq<char> {
        match self {
            InstallType::PersonalMedia(kind) => kind.install_path(),
            InstallType::Styling(kind) => kind.install_path(),
            InstallType::WMThemes(kind) => kind.install_path(),
            InstallType::QtGeneral(kind) => kind.install_path(),
            InstallType::AppSpecific(kind) => kind.install_path(),
        }
    }

    /// The template of the directory that files of the kind are installed to.
    pub fn get_install_path(&self) -> (path: String)
        ensures
            path@ == self.install_path(),
    {
        match self {
            InstallType::PersonalMedia(kind) => kind.get_install_path(),
            InstallType::Styling(kind) => kind.get_install_path(),
            InstallType::WMThemes(kind) => kind.get_install_path(),
            InstallType::QtGeneral(kind) => kind.get_install_path(),
            InstallType::AppSpecific(kind) => kind.get_install_path(),
        }
    }
}

} // verus!
