//! The settings record, the table of command templates, and the defaults
//! that apply where a setting is left out.

use vstd::prelude::*;
use crate::table::TextMap;
use crate::text::{chars_of, join_chars, join_path, string_of};

verus! {

/// Everything the engine is configured with.  Paths that were left out are
/// `None` until `Config::complete_paths` has filled them in.
#[derive(Clone, Debug)]
pub struct Settings {
    pub language: String,
    pub marquee_width: i32,
    pub marquee_height: i32,
    pub marquee_border: i32,
    pub marquee_auto_convert: bool,
    /// The accepted file extensions, separated by commas, most preferred first.
    pub accepted_formats: String,
    pub retrobat_path: Option<String>,
    pub roms_path: Option<String>,
    /// The image shown when nothing else is found.
    pub default_image_path: Option<String>,
    pub marquee_image_path: Option<String>,
    pub marquee_file_path: String,
    pub marquee_image_path_default: Option<String>,
    pub marquee_file_path_default: String,
    pub marquee_auto_scraping: bool,
    pub marquee_auto_scraping_debug: bool,
    pub system_marquee_path: Option<String>,
    pub system_file_path: String,
    pub collection_marquee_path: Option<String>,
    pub collection_file_path: String,
    pub collection_alternativ_names: String,
    pub collection_correlation: String,
    pub ipc_channel: String,
    pub screen_number: i32,
    pub mpv_path: Option<String>,
    pub mpv_launch_command: String,
    pub mpv_kill_command: String,
    pub mpv_test_command: String,
    pub im_path: Option<String>,
    pub im_convert_command: String,
    pub host: String,
    pub port: i32,
    pub log_file: bool,
}

/// The command templates, keyed by the name of the event they answer.
#[derive(Clone, Debug)]
pub struct Commands {
    pub commands: TextMap,
}

/// The settings together with the command templates.
#[derive(Clone, Debug)]
pub struct Config {
    pub settings: Settings,
    pub commands: Commands,
}

/// The language used where none is configured.
pub fn default_language() -> (s: String)
    ensures
        s@ == "en"@,
{
    "en".to_owned()
}

/// The width of the marquee display, in pixels, where none is configured.
pub fn default_marquee_width() -> (n: i32)
    ensures
        n == 1920,
{
    1920
}

/// The height of the marquee display, in pixels, where none is configured.
pub fn default_marquee_height() -> (n: i32)
    ensures
        n == 360,
{
    360
}

/// The width of the border, where none is configured.
pub fn default_marquee_border() -> (n: i32)
    ensures
        n == 0,
{
    0
}

/// The accepted file extensions, most preferred first, where none are configured.
pub fn default_accepted_formats() -> (s: String)
    ensures
        s@ == "png,jpg,gif,mp4"@,
{
    "png,jpg,gif,mp4".to_owned()
}

/// The file-name template of a game's marquee at its first location.
pub fn default_marquee_file_path() -> (s: String)
    ensures
        s@ == "{system_name}-{game_name}"@,
{
    "{system_name}-{game_name}".to_owned()
}

/// The file-name template of a game's marquee at its second location.
pub fn default_marquee_file_path_default() -> (s: String)
    ensures
        s@ == "{system_name}/images/{game_name}-marquee"@,
{
    "{system_name}/images/{game_name}-marquee".to_owned()
}

/// The file-name template of a system's marquee.
pub fn default_system_file_path() -> (s: String)
    ensures
        s@ == "{system_name}"@,
{
    "{system_name}".to_owned()
}

/// The file-name template of a collection's marquee.
pub fn default_collection_file_path() -> (s: String)
    ensures
        s@ == "auto-{collection_name}"@,
{
    "auto-{collection_name}".to_owned()
}

/// The alternative collection names, where none are configured.
pub fn default_collection_alternativ_names() -> (s: String)
    ensures
        s@ == ""@,
{
    "".to_owned()
}

/// The collection correlations, where none are configured.
pub fn default_collection_correlation() -> (s: String)
    ensures
        s@ == ""@,
{
    "".to_owned()
}

/// The channel on which the player takes commands.
pub fn default_ipc_channel() -> (s: String)
    ensures
        s@ == "\\\\.\\pipe\\mpv-pipe"@,
{
    "\\\\.\\pipe\\mpv-pipe".to_owned()
}

/// The screen on which the player shows the marquee.
pub fn default_screen_number() -> (n: i32)
    ensures
        n == 1,
{
    1
}

/// The template of the command that starts the player.
pub fn default_mpv_launch_command() -> (s: String)
    ensures
        s@
            == "\"{MPVPath}\" --input-ipc-server={IPCChannel} --screen={ScreenNumber} --no-border --ontop --autofit-larger=100%x100% \"{DefaultImagePath}\""@,
{
    "\"{MPVPath}\" --input-ipc-server={IPCChannel} --screen={ScreenNumber} --no-border --ontop --autofit-larger=100%x100% \"{DefaultImagePath}\"".to_owned()
}

/// The command that stops the player.
pub fn default_mpv_kill_command() -> (s: String)
    ensures
        s@ == "taskkill /IM mpv.exe /F"@,
{
    "taskkill /IM mpv.exe /F".to_owned()
}

/// The template of the command that pings the player.
pub fn default_mpv_test_command() -> (s: String)
    ensures
        s@ == "echo test > {IPCChannel}"@,
{
    "echo test > {IPCChannel}".to_owned()
}

/// The template of the command that runs the image compositor.
pub fn default_im_convert_command() -> (s: String)
    ensures
        s@
            == "\"{IMPath}\" \"{ImgPath}\" -resize {MarqueeWidth}x{MarqueeHeight} \"{ImgTargetPath}\""@,
{
    "\"{IMPath}\" \"{ImgPath}\" -resize {MarqueeWidth}x{MarqueeHeight} \"{ImgTargetPath}\"".to_owned()
}

/// The host on which the frontend answers.
pub fn default_host() -> (s: String)
    ensures
        s@ == "127.0.0.1"@,
{
    "127.0.0.1".to_owned()
}

/// The port on which the frontend answers.
pub fn default_port() -> (n: i32)
    ensures
        n == 8080,
{
    8080
}

/// What a path setting holds once it has been completed: what it held
/// before, or `rel` below `base` where it was left out.
pub open spec fn completed(
    before: Option<String>,
    after: Option<String>,
    base: Seq<char>,
    rel: Seq<char>,
) -> bool {
    match before {
        Some(path) => after == before,
        None => after is Some && after->0@ == join_path(base, rel),
    }
}

/// `rel` below the directory `base`.
pub fn join(base: &str, rel: &str) -> (path: String)
    ensures
        path@ == join_path(base@, rel@),
{
    let b = chars_of(base);
    let r = chars_of(rel);
    let joined = join_chars(&b, &r);
    string_of(&joined)
}

/// The path setting `slot`, or `rel` below `base` where it was left out.
pub fn path_or(slot: &Option<String>, base: &str, rel: &str) -> (path: Option<String>)
    ensures
        completed(*slot, path, base@, rel@),
{
    match slot {
        Some(p) => Some(p.clone()),
        None => Some(join(base, rel)),
    }
}

impl Settings {
    /// Whether the two records agree in every setting that is not a path.
    pub open spec fn same_options(self, other: Settings) -> bool {
        &&& self.language == other.language
        &&& self.marquee_width == other.marquee_width
        &&& self.marquee_height == other.marquee_height
        &&& self.marquee_border == other.marquee_border
        &&& self.marquee_auto_convert == other.marquee_auto_convert
        &&& self.accepted_formats == other.accepted_formats
        &&& self.marquee_file_path == other.marquee_file_path
        &&& self.marquee_file_path_default == other.marquee_file_path_default
        &&& self.marquee_auto_scraping == other.marquee_auto_scraping
        &&& self.marquee_auto_scraping_debug == other.marquee_auto_scraping_debug
        &&& self.system_file_path == other.system_file_path
        &&& self.collection_file_path == other.collection_file_path
        &&& self.collection_alternativ_names == other.collection_alternativ_names
        &&& self.collection_correlation == other.collection_correlation
        &&& self.ipc_channel == other.ipc_channel
        &&& self.screen_number == other.screen_number
        &&& self.mpv_launch_command == other.mpv_launch_command
        &&& self.mpv_kill_command == other.mpv_kill_command
        &&& self.mpv_test_command == other.mpv_test_command
        &&& self.im_convert_command == other.im_convert_command
        &&& self.host == other.host
        &&& self.port == other.port
        &&& self.log_file == other.log_file
    }

    /// Whether every path that the engine works with is set.
    pub open spec fn paths_complete(self) -> bool {
        &&& self.roms_path is Some
        &&& self.default_image_path is Some
        &&& self.marquee_image_path is Some
        &&& self.marquee_image_path_default is Some
        &&& self.system_marquee_path is Some
        &&& self.collection_marquee_path is Some
        &&& self.mpv_path is Some
        &&& self.im_path is Some
    }

    /// Whether every path that the engine works with is set.
    pub fn has_complete_paths(&self) -> (complete: bool)
        ensures
            complete == self.paths_complete(),
    {
        self.roms_path.is_some() && self.default_image_path.is_some()
            && self.marquee_image_path.is_some() && self.marquee_image_path_default.is_some()
            && self.system_marquee_path.is_some() && self.collection_marquee_path.is_some()
            && self.mpv_path.is_some() && self.im_path.is_some()
    }

    /// The record in which every optional setting has its default and no
    /// path is set.
    pub fn with_defaults() -> (settings: Settings)
        ensures
            settings.language@ == "en"@,
            settings.marquee_width == 1920,
            settings.marquee_height == 360,
            settings.marquee_border == 0,
            !settings.marquee_auto_convert,
            settings.accepted_formats@ == "png,jpg,gif,mp4"@,
            settings.retrobat_path is None,
            settings.roms_path is None,
            settings.default_image_path is None,
            settings.marquee_image_path is None,
            settings.marquee_file_path@ == "{system_name}-{game_name}"@,
            settings.marquee_image_path_default is None,
            settings.marquee_file_path_default@ == "{system_name}/images/{game_name}-marquee"@,
            !settings.marquee_auto_scraping,
            !settings.marquee_auto_scraping_debug,
            settings.system_marquee_path is None,
            settings.system_file_path@ == "{system_name}"@,
            settings.collection_marquee_path is None,
            settings.collection_file_path@ == "auto-{collection_name}"@,
            settings.collection_alternativ_names@ == ""@,
            settings.collection_correlation@ == ""@,
            settings.ipc_channel@ == "\\\\.\\pipe\\mpv-pipe"@,
            settings.screen_number == 1,
            settings.mpv_path is None,
            settings.mpv_launch_command@
                == "\"{MPVPath}\" --input-ipc-server={IPCChannel} --screen={ScreenNumber} --no-border --ontop --autofit-larger=100%x100% \"{DefaultImagePath}\""@,
            settings.mpv_kill_command@ == "taskkill /IM mpv.exe /F"@,
            settings.mpv_test_command@ == "echo test > {IPCChannel}"@,
            settings.im_path is None,
            settings.im_convert_command@
                == "\"{IMPath}\" \"{ImgPath}\" -resize {MarqueeWidth}x{MarqueeHeight} \"{ImgTargetPath}\""@,
            settings.host@ == "127.0.0.1"@,
            settings.port == 8080,
            !settings.log_file,
    {
        Settings {
            language: default_language(),
            marquee_width: default_marquee_width(),
            marquee_height: default_marquee_height(),
            marquee_border: default_marquee_border(),
            marquee_auto_convert: false,
            accepted_formats: default_accepted_formats(),
            retrobat_path: None,
            roms_path: None,
            default_image_path: None,
            marquee_image_path: None,
            marquee_file_path: default_marquee_file_path(),
            marquee_image_path_default: None,
            marquee_file_path_default: default_marquee_file_path_default(),
            marquee_auto_scraping: false,
            marquee_auto_scraping_debug: false,
            system_marquee_path: None,
            system_file_path: default_system_file_path(),
            collection_marquee_path: None,
            collection_file_path: default_collection_file_path(),
            collection_alternativ_names: default_collection_alternativ_names(),
            collection_correlation: default_collection_correlation(),
            ipc_channel: default_ipc_channel(),
            screen_number: default_screen_number(),
            mpv_path: None,
            mpv_launch_command: default_mpv_launch_command(),
            mpv_kill_command: default_mpv_kill_command(),
            mpv_test_command: default_mpv_test_command(),
            im_path: None,
            im_convert_command: default_im_convert_command(),
            host: default_host(),
            port: default_port(),
            log_file: false,
        }
    }
}

impl Config {
    /// Fills in every path that was left out: the ROM and default marquee
    /// directories and the theme's logo directory below the frontend's
    /// installation directory `retrobat_path`; the images, the player and the
    /// compositor below the working directory `current_dir`.  Paths that
    /// were set, and all other settings, stay as they are.
    pub fn complete_paths(&mut self, retrobat_path: &str, current_dir: &str)
        ensures
            final(self).settings.paths_complete(),
            completed(
                old(self).settings.roms_path,
                final(self).settings.roms_path,
                retrobat_path@,
                "roms"@,
            ),
            completed(
                old(self).settings.default_image_path,
                final(self).settings.default_image_path,
                current_dir@,
                "images/default.png"@,
            ),
            completed(
                old(self).settings.marquee_image_path,
                final(self).settings.marquee_image_path,
                current_dir@,
                "images"@,
            ),
            completed(
                old(self).settings.marquee_image_path_default,
                final(self).settings.marquee_image_path_default,
                retrobat_path@,
                "roms"@,
            ),
            completed(
                old(self).settings.system_marquee_path,
                final(self).settings.system_marquee_path,
                retrobat_path@,
                "emulationstation/.emulationstation/themes/es-theme-carbon/art/logos"@,
            ),
            completed(
                old(self).settings.collection_marquee_path,
                final(self).settings.collection_marquee_path,
                retrobat_path@,
                "emulationstation/.emulationstation/themes/es-theme-carbon/art/logos"@,
            ),
            completed(
                old(self).settings.mpv_path,
                final(self).settings.mpv_path,
                current_dir@,
                "mpv/mpv.exe"@,
            ),
            completed(
                old(self).settings.im_path,
                final(self).settings.im_path,
                current_dir@,
                "imagemagick/convert.exe"@,
            ),
            final(self).settings.retrobat_path == old(self).settings.retrobat_path,
            final(self).settings.same_options(old(self).settings),
            final(self).commands == old(self).commands,
            old(self).settings.paths_complete() ==> *final(self) == *old(self),
    {
        let roms = path_or(&self.settings.roms_path, retrobat_path, "roms");
        let default_image = path_or(
            &self.settings.default_image_path,
            current_dir,
            "images/default.png",
        );
        let images = path_or(&self.settings.marquee_image_path, current_dir, "images");
        let images_default = path_or(
            &self.settings.marquee_image_path_default,
            retrobat_path,
            "roms",
        );
        let system = path_or(
            &self.settings.system_marquee_path,
            retrobat_path,
            "emulationstation/.emulationstation/themes/es-theme-carbon/art/logos",
        );
        let collection = path_or(
            &self.settings.collection_marquee_path,
            retrobat_path,
            "emulationstation/.emulationstation/themes/es-theme-carbon/art/logos",
        );
        let mpv = path_or(&self.settings.mpv_path, current_dir, "mpv/mpv.exe");
        let im = path_or(&self.settings.im_path, current_dir, "imagemagick/convert.exe");
        self.settings.roms_path = roms;
        self.settings.default_image_path = default_image;
        self.settings.marquee_image_path = images;
        self.settings.marquee_image_path_default = images_default;
        self.settings.system_marquee_path = system;
        self.settings.collection_marquee_path = collection;
        self.settings.mpv_path = mpv;
        self.settings.im_path = im;
    }
}

/// Whether `s` spells a word letter by letter, each letter in either case:
/// `lower` and `upper` are the word in lower and in upper case.
pub open spec fn spells(s: Seq<char>, lower: Seq<char>, upper: Seq<char>) -> bool {
    s.len() == lower.len() && forall|i: int|
        0 <= i < s.len() ==> s[i] == lower[i] || s[i] == #[trigger] upper[i]
}

/// Whether `s` spells the word given in lower and in upper case.
fn spells_word(s: &Vec<char>, lower: &str, upper: &str) -> (b: bool)
    requires
        lower@.len() == upper@.len(),
    ensures
        b == spells(s@, lower@, upper@),
{
    let lo = chars_of(lower);
    let up = chars_of(upper);
    if s.len() != lo.len() {
        return false;
    }
    let mut i: usize = 0;
    while i < s.len()
        invariant
            i <= s.len(),
            s.len() == lo.len(),
            lo.len() == up.len(),
            lo@ == lower@,
            up@ == upper@,
            forall|k: int| 0 <= k < i ==> s@[k] == lo@[k] || s@[k] == #[trigger] up@[k],
        decreases s.len() - i,
    {
        if s[i] != lo[i] && s[i] != up[i] {
            return false;
        }
        i += 1;
    }
    true
}

/// The value of an optional on/off setting: off where it is left out, on
/// for `true` and off for `false` in any mixture of cases, and for any other
/// text an error that carries the text.
pub fn deserialize_bool_from_string_opt(value: &Option<String>) -> (flag: Result<bool, String>)
    ensures
        match *value {
            None => flag == Ok::<bool, String>(false),
            Some(s) => if spells(s@, "true"@, "TRUE"@) {
                flag == Ok::<bool, String>(true)
            } else if spells(s@, "false"@, "FALSE"@) {
                flag == Ok::<bool, String>(false)
            } else {
                flag is Err && flag->Err_0@ == s@
            },
        },
{
    match value {
        None => Ok(false),
        Some(s) => {
            let chars = chars_of(s.as_str());
            proof {
                reveal_strlit("true");
                reveal_strlit("TRUE");
                reveal_strlit("false");
                reveal_strlit("FALSE");
            }
            if spells_word(&chars, "true", "TRUE") {
                Ok(true)
            } else if spells_word(&chars, "false", "FALSE") {
                Ok(false)
            } else {
                Err(s.clone())
            }
        },
    }
}

} // verus!
