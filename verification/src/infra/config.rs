//! The settings of the service, and how they are read out of the values
//! that the environment holds.

use crate::text::{
    chars_of, number_error_text, parse_u32, push_str, read_u32, same_text, string_of, NumberError,
};
use vstd::prelude::*;

verus! {

/// Everything the service is set up with.
#[derive(Clone)]
pub struct Config {
    pub authentication_settings: AuthenticationSettings,
    pub image_cache_settings: ImageCacheSettings,
    pub aws_settings: AwsSettings,
    pub validation_settings: ValidationSettings,
}

/// The secret that requests are signed with.
#[derive(Clone)]
pub struct AuthenticationSettings {
    pub shared_secret: String,
}

/// The two containers of the blob store, one for each cache tier.
#[derive(Clone)]
pub struct ImageCacheSettings {
    pub processed_images_bucket_name: String,
    pub unprocessed_images_bucket_name: String,
}

/// How the blob store is addressed.
#[derive(Clone, Copy)]
pub struct AwsSettings {
    pub path_style_s3: bool,
}

/// The limits that requests and images are held to.
#[derive(Clone, Copy)]
pub struct ValidationSettings {
    /// Largest width that an image is resized to, in pixels.
    pub max_resize_target_width: u32,
    /// Largest height that an image is resized to, in pixels.
    pub max_resize_target_height: u32,
    /// Largest width of a source image, in pixels.
    pub max_source_image_width: u32,
    /// Largest height of a source image, in pixels.
    pub max_source_image_height: u32,
    /// Largest download that an origin may announce, in bytes.
    pub max_source_image_download_size: u64,
    /// Largest source image, in bytes.
    pub max_source_image_size: u64,
}

/// The limit on each pixel dimension where none is set.
pub const MAX_PIXELS_DEFAULT: u32 = 10000;

/// The limit on a download where none is set: ten megabytes.
pub const MAX_IMAGE_DOWNLOAD_SIZE: u64 = 10000000;

/// The limit on a source image where none is set: ten megabytes.
pub const MAX_IMAGE_FILE_SIZE: u64 = 10000000;

impl Default for ValidationSettings {
    fn default() -> (settings: ValidationSettings)
        ensures
            settings == default_validation_settings(),
    {
        ValidationSettings {
            max_resize_target_width: MAX_PIXELS_DEFAULT,
            max_resize_target_height: MAX_PIXELS_DEFAULT,
            max_source_image_width: MAX_PIXELS_DEFAULT,
            max_source_image_height: MAX_PIXELS_DEFAULT,
            max_source_image_download_size: MAX_IMAGE_DOWNLOAD_SIZE,
            max_source_image_size: MAX_IMAGE_FILE_SIZE,
        }
    }
}

/// The limits that hold where the environment sets none.
pub open spec fn default_validation_settings() -> ValidationSettings {
    ValidationSettings {
        max_resize_target_width: 10000,
        max_resize_target_height: 10000,
        max_source_image_width: 10000,
        max_source_image_height: 10000,
        max_source_image_download_size: 10000000,
        max_source_image_size: 10000000,
    }
}

/// What the environment holds under one name.
pub enum EnvValue {
    /// The name is not defined.
    Unset,
    /// The value is no Unicode text; this is how it prints.
    NotUnicode(String),
    /// The value.
    Text(String),
}

/// The values that the environment holds under the names the service reads.
pub struct Environment {
    pub shared_secret: EnvValue,
    pub processed_images_bucket: EnvValue,
    pub unprocessed_images_bucket: EnvValue,
    pub require_path_style_s3: EnvValue,
    pub max_resize_target_width: EnvValue,
    pub max_resize_target_height: EnvValue,
    pub max_source_image_width: EnvValue,
    pub max_source_image_height: EnvValue,
    pub max_image_download_size: EnvValue,
    pub max_image_file_size: EnvValue,
}

/// The names that the service reads from the environment.
#[derive(Clone, Copy, Debug, PartialEq, Eq, Structural)]
pub enum Setting {
    SharedSecret,
    ProcessedImagesBucket,
    UnprocessedImagesBucket,
    RequirePathStyleS3,
    MaxResizeTargetWidth,
    MaxResizeTargetHeight,
    MaxSourceImageWidth,
    MaxSourceImageHeight,
    MaxImageDownloadSize,
    MaxImageFileSize,
}

/// The name of a setting in the environment.
pub open spec fn setting_name(setting: Setting) -> Seq<char> {
    match setting {
        Setting::SharedSecret => "MINIATURS_SHARED_SECRET"@,
        Setting::ProcessedImagesBucket => "PROCESSED_IMAGES_BUCKET"@,
        Setting::UnprocessedImagesBucket => "UNPROCESSED_IMAGES_BUCKET"@,
        Setting::RequirePathStyleS3 => "REQUIRE_PATH_STYLE_S3"@,
        Setting::MaxResizeTargetWidth => "MAX_RESIZE_TARGET_WIDTH"@,
        Setting::MaxResizeTargetHeight => "MAX_RESIZE_TARGET_HEIGHT"@,
        Setting::MaxSourceImageWidth => "MAX_SOURCE_IMAGE_WIDTH"@,
        Setting::MaxSourceImageHeight => "MAX_SOURCE_IMAGE_HEIGHT"@,
        Setting::MaxImageDownloadSize => "MAX_IMAGE_DOWNLOAD_SIZE"@,
        Setting::MaxImageFileSize => "MAX_IMAGE_FILE_SIZE"@,
    }
}

impl Setting {
    /// The name of the setting in the environment.
    pub fn name(&self) -> (name: &'static str)
        ensures
            name@ == setting_name(*self),
    {
        match self {
            Setting::SharedSecret => "MINIATURS_SHARED_SECRET",
            Setting::ProcessedImagesBucket => "PROCESSED_IMAGES_BUCKET",
            Setting::UnprocessedImagesBucket => "UNPROCESSED_IMAGES_BUCKET",
            Setting::RequirePathStyleS3 => "REQUIRE_PATH_STYLE_S3",
            Setting::MaxResizeTargetWidth => "MAX_RESIZE_TARGET_WIDTH",
            Setting::MaxResizeTargetHeight => "MAX_RESIZE_TARGET_HEIGHT",
            Setting::MaxSourceImageWidth => "MAX_SOURCE_IMAGE_WIDTH",
            Setting::MaxSourceImageHeight => "MAX_SOURCE_IMAGE_HEIGHT",
            Setting::MaxImageDownloadSize => "MAX_IMAGE_DOWNLOAD_SIZE",
            Setting::MaxImageFileSize => "MAX_IMAGE_FILE_SIZE",
        }
    }
}

/// What is wrong with the value of a setting.
pub enum ConfigProblem {
    /// A setting that must be there is not defined, or is no Unicode text.
    Missing,
    /// The value of a limit is no Unicode text; this is how it prints.
    NotUnicode(String),
    /// The value of a pixel limit is no number.
    NotANumber(NumberError),
    /// The value of a byte limit is no size; this is the reason given.
    NotAByteSize(String),
}

/// A setting that could not be read, and why.
pub struct ConfigError {
    pub setting: Setting,
    pub problem: ConfigProblem,
}

/// The sentence that describes a setting that could not be read.
pub open spec fn config_error_text(setting: Setting, problem: ConfigProblem) -> Seq<char> {
    match problem {
        ConfigProblem::Missing => "Expected "@ + setting_name(setting) + " to be defined"@,
        ConfigProblem::NotUnicode(shown) => "Could not decode env var "@ + setting_name(setting)
            + " ["@ + shown@ + "]"@,
        ConfigProblem::NotANumber(e) => "Could not convert "@ + setting_name(setting) + ": ["@
            + number_error_text(e) + "]"@,
        ConfigProblem::NotAByteSize(given) => "Could not convert "@ + setting_name(setting)
            + ": ["@ + given@ + "]"@,
    }
}

impl ConfigError {
    /// A sentence that describes the error.
    pub fn message(&self) -> (text: String)
        ensures
            text@ == config_error_text(self.setting, self.problem),
    {
        let mut out: Vec<char> = Vec::new();
        match &self.problem {
            ConfigProblem::Missing => {
                push_str(&mut out, "Expected ");
                push_str(&mut out, self.setting.name());
                push_str(&mut out, " to be defined");
            },
            ConfigProblem::NotUnicode(shown) => {
                push_str(&mut out, "Could not decode env var ");
                push_str(&mut out, self.setting.name());
                push_str(&mut out, " [");
                push_str(&mut out, shown.as_str());
                push_str(&mut out, "]");
            },
            ConfigProblem::NotANumber(e) => {
                let reason = e.message();
                push_str(&mut out, "Could not convert ");
                push_str(&mut out, self.setting.name());
                push_str(&mut out, ": [");
                push_str(&mut out, reason.as_str());
                push_str(&mut out, "]");
            },
            ConfigProblem::NotAByteSize(given) => {
                push_str(&mut out, "Could not convert ");
                push_str(&mut out, self.setting.name());
                push_str(&mut out, ": [");
                push_str(&mut out, given.as_str());
                push_str(&mut out, "]");
            },
        }
        string_of(out.as_slice())
    }
}

/// The size in bytes that the `bytesize` crate reads out of a text, or the
/// reason it gives for not reading one.
pub uninterp spec fn byte_size_of_text(text: Seq<char>) -> Result<u64, Seq<char>>;

/// `ByteSize::from_str` of the `bytesize` crate, and the `u64` it wraps.
///
/// Trusted: the outcome is a function of the text.
#[verifier::external_body]
pub(crate) fn parse_byte_size(text: &str) -> (r: Result<u64, String>)
    ensures
        match r {
            Ok(bytes) => byte_size_of_text(text@) == Ok::<u64, Seq<char>>(bytes),
            Err(reason) => byte_size_of_text(text@) == Err::<u64, Seq<char>>(reason@),
        },
{
    match <bytesize::ByteSize as std::str::FromStr>::from_str(text) {
        Ok(size) => Ok(size.0),
        Err(reason) => Err(reason),
    }
}

/// The text of a setting that must be there.
pub open spec fn required_text(value: EnvValue) -> Option<Seq<char>> {
    match value {
        EnvValue::Text(text) => Some(text@),
        _ => None,
    }
}

/// Whether a value asks for path-style addressing: it does where it is the
/// text `true`, and in no other case.
pub open spec fn asks_for_path_style(value: EnvValue) -> bool {
    match value {
        EnvValue::Text(text) => text@ == "true"@,
        _ => false,
    }
}

/// Whether the value of a pixel limit can be read: it is unset, or a number.
pub open spec fn pixel_limit_readable(value: EnvValue) -> bool {
    match value {
        EnvValue::Unset => true,
        EnvValue::NotUnicode(_) => false,
        EnvValue::Text(text) => parse_u32(text@) is Ok,
    }
}

/// The pixel limit that holds with the given value in the environment.
pub open spec fn pixel_limit(value: EnvValue, default: u32) -> u32 {
    match value {
        EnvValue::Text(text) => match parse_u32(text@) {
            Ok(limit) => limit as u32,
            Err(_) => default,
        },
        _ => default,
    }
}

/// Whether the value of a byte limit can be read: it is unset, or a size.
pub open spec fn byte_limit_readable(value: EnvValue) -> bool {
    match value {
        EnvValue::Unset => true,
        EnvValue::NotUnicode(_) => false,
        EnvValue::Text(text) => byte_size_of_text(text@) is Ok,
    }
}

/// The byte limit that holds with the given value in the environment.
pub open spec fn byte_limit(value: EnvValue, default: u64) -> u64 {
    match value {
        EnvValue::Text(text) => match byte_size_of_text(text@) {
            Ok(limit) => limit,
            Err(_) => default,
        },
        _ => default,
    }
}

/// The first setting that cannot be read, in the order in which the settings
/// are read.
pub open spec fn first_unreadable(env: Environment) -> Option<Setting> {
    if required_text(env.shared_secret) is None {
        Some(Setting::SharedSecret)
    } else if required_text(env.processed_images_bucket) is None {
        Some(Setting::ProcessedImagesBucket)
    } else if required_text(env.unprocessed_images_bucket) is None {
        Some(Setting::UnprocessedImagesBucket)
    } else if !pixel_limit_readable(env.max_resize_target_width) {
        Some(Setting::MaxResizeTargetWidth)
    } else if !pixel_limit_readable(env.max_resize_target_height) {
        Some(Setting::MaxResizeTargetHeight)
    } else if !pixel_limit_readable(env.max_source_image_width) {
        Some(Setting::MaxSourceImageWidth)
    } else if !pixel_limit_readable(env.max_source_image_height) {
        Some(Setting::MaxSourceImageHeight)
    } else if !byte_limit_readable(env.max_image_download_size) {
        Some(Setting::MaxImageDownloadSize)
    } else if !byte_limit_readable(env.max_image_file_size) {
        Some(Setting::MaxImageFileSize)
    } else {
        None
    }
}

/// The limits that hold with the given environment.
pub open spec fn validation_settings_of(env: Environment) -> ValidationSettings {
    let defaults = default_validation_settings();
    ValidationSettings {
        max_resize_target_width: pixel_limit(
            env.max_resize_target_width,
            defaults.max_resize_target_width,
        ),
        max_resize_target_height: pixel_limit(
            env.max_resize_target_height,
            defaults.max_resize_target_height,
        ),
        max_source_image_width: pixel_limit(
            env.max_source_image_width,
            defaults.max_source_image_width,
        ),
        max_source_image_height: pixel_limit(
            env.max_source_image_height,
            defaults.max_source_image_height,
        ),
        max_source_image_download_size: byte_limit(
            env.max_image_download_size,
            defaults.max_source_image_download_size,
        ),
        max_source_image_size: byte_limit(
            env.max_image_file_size,
            defaults.max_source_image_size,
        ),
    }
}

/// What is wrong with the value of a pixel limit, if anything.
pub open spec fn pixel_limit_problem(value: EnvValue, problem: ConfigProblem) -> bool {
    match value {
        EnvValue::Unset => false,
        EnvValue::NotUnicode(shown) => problem == ConfigProblem::NotUnicode(shown),
        EnvValue::Text(text) => match parse_u32(text@) {
            Ok(_) => false,
            Err(e) => problem == ConfigProblem::NotANumber(e),
        },
    }
}

/// What is wrong with the value of a byte limit, if anything.
pub open spec fn byte_limit_problem(value: EnvValue, problem: ConfigProblem) -> bool {
    match value {
        EnvValue::Unset => false,
        EnvValue::NotUnicode(shown) => problem == ConfigProblem::NotUnicode(shown),
        EnvValue::Text(text) => match byte_size_of_text(text@) {
            Ok(_) => false,
            Err(reason) => problem matches ConfigProblem::NotAByteSize(given) && given@ == reason,
        },
    }
}

/// Whether `problem` says what is wrong with `setting` in the environment.
pub open spec fn describes(env: Environment, setting: Setting, problem: ConfigProblem) -> bool {
    match setting {
        Setting::SharedSecret => problem is Missing,
        Setting::ProcessedImagesBucket => problem is Missing,
        Setting::UnprocessedImagesBucket => problem is Missing,
        Setting::RequirePathStyleS3 => false,
        Setting::MaxResizeTargetWidth => pixel_limit_problem(env.max_resize_target_width, problem),
        Setting::MaxResizeTargetHeight => pixel_limit_problem(
            env.max_resize_target_height,
            problem,
        ),
        Setting::MaxSourceImageWidth => pixel_limit_problem(env.max_source_image_width, problem),
        Setting::MaxSourceImageHeight => pixel_limit_problem(env.max_source_image_height, problem),
        Setting::MaxImageDownloadSize => byte_limit_problem(env.max_image_download_size, problem),
        Setting::MaxImageFileSize => byte_limit_problem(env.max_image_file_size, problem),
    }
}

fn read_required(value: EnvValue, setting: Setting) -> (r: Result<String, ConfigError>)
    ensures
        match r {
            Ok(text) => required_text(value) == Some(text@),
            Err(e) => required_text(value) is None && e.setting == setting && e.problem is Missing,
        },
{
    match value {
        EnvValue::Text(text) => Ok(text),
        _ => Err(ConfigError { setting, problem: ConfigProblem::Missing }),
    }
}

fn read_pixel_limit(value: EnvValue, default: u32, setting: Setting) -> (r: Result<
    u32,
    ConfigError,
>)
    ensures
        match r {
            Ok(limit) => pixel_limit_readable(value) && limit == pixel_limit(value, default),
            Err(e) => !pixel_limit_readable(value) && e.setting == setting && pixel_limit_problem(
                value,
                e.problem,
            ),
        },
{
    match value {
        EnvValue::Unset => Ok(default),
        EnvValue::NotUnicode(shown) => Err(
            ConfigError { setting, problem: ConfigProblem::NotUnicode(shown) },
        ),
        EnvValue::Text(text) => {
            let chars = chars_of(text.as_str());
            match read_u32(chars.as_slice()) {
                Ok(limit) => Ok(limit),
                Err(e) => Err(ConfigError { setting, problem: ConfigProblem::NotANumber(e) }),
            }
        },
    }
}

fn read_byte_limit(value: EnvValue, default: u64, setting: Setting) -> (r: Result<u64, ConfigError>)
    ensures
        match r {
            Ok(limit) => byte_limit_readable(value) && limit == byte_limit(value, default),
            Err(e) => !byte_limit_readable(value) && e.setting == setting && byte_limit_problem(
                value,
                e.problem,
            ),
        },
{
    match value {
        EnvValue::Unset => Ok(default),
        EnvValue::NotUnicode(shown) => Err(
            ConfigError { setting, problem: ConfigProblem::NotUnicode(shown) },
        ),
        EnvValue::Text(text) => {
            match parse_byte_size(text.as_str()) {
                Ok(limit) => Ok(limit),
                Err(reason) => Err(
                    ConfigError { setting, problem: ConfigProblem::NotAByteSize(reason) },
                ),
            }
        },
    }
}

fn read_path_style(value: &EnvValue) -> (flag: bool)
    ensures
        flag == asks_for_path_style(*value),
{
    match value {
        EnvValue::Text(text) => same_text(text.as_str(), "true"),
        _ => false,
    }
}

impl Config {
    /// Reads the settings out of the values of the environment.
    ///
    /// The secret and the two containers must be there. Each limit keeps its
    /// default where the environment sets none. The first setting that cannot
    /// be read, in the order of `first_unreadable`, is reported.
    pub fn from_environment(env: Environment) -> (r: Result<Config, ConfigError>)
        ensures
            r is Ok <==> first_unreadable(env) is None,
            r matches Ok(config) ==> {
                &&& Some(config.authentication_settings.shared_secret@) == required_text(
                    env.shared_secret,
                )
                &&& Some(config.image_cache_settings.processed_images_bucket_name@)
                    == required_text(env.processed_images_bucket)
                &&& Some(config.image_cache_settings.unprocessed_images_bucket_name@)
                    == required_text(env.unprocessed_images_bucket)
                &&& config.aws_settings.path_style_s3 == asks_for_path_style(
                    env.require_path_style_s3,
                )
                &&& config.validation_settings == validation_settings_of(env)
            },
            r matches Err(e) ==> first_unreadable(env) == Some(e.setting) && describes(
                env,
                e.setting,
                e.problem,
            ),
    {
        let defaults = ValidationSettings::default();
        let shared_secret = read_required(env.shared_secret, Setting::SharedSecret)?;
        let processed = read_required(env.processed_images_bucket, Setting::ProcessedImagesBucket)?;
        let unprocessed = read_required(
            env.unprocessed_images_bucket,
            Setting::UnprocessedImagesBucket,
        )?;
        let path_style_s3 = read_path_style(&env.require_path_style_s3);
        let max_resize_target_width = read_pixel_limit(
            env.max_resize_target_width,
            defaults.max_resize_target_width,
            Setting::MaxResizeTargetWidth,
        )?;
        let max_resize_target_height = read_pixel_limit(
            env.max_resize_target_height,
            defaults.max_resize_target_height,
            Setting::MaxResizeTargetHeight,
        )?;
        let max_source_image_width = read_pixel_limit(
            env.max_source_image_width,
            defaults.max_source_image_width,
            Setting::MaxSourceImageWidth,
        )?;
        let max_source_image_height = read_pixel_limit(
            env.max_source_image_height,
            defaults.max_source_image_height,
            Setting::MaxSourceImageHeight,
        )?;
        let max_source_image_download_size = read_byte_limit(
            env.max_image_download_size,
            defaults.max_source_image_download_size,
            Setting::MaxImageDownloadSize,
        )?;
        let max_source_image_size = read_byte_limit(
            env.max_image_file_size,
            defaults.max_source_image_size,
            Setting::MaxImageFileSize,
        )?;
        Ok(
            Config {
                authentication_settings: AuthenticationSettings { shared_secret },
                image_cache_settings: ImageCacheSettings {
                    processed_images_bucket_name: processed,
                    unprocessed_images_bucket_name: unprocessed,
                },
                aws_settings: AwsSettings { path_style_s3 },
                validation_settings: ValidationSettings {
                    max_resize_target_width,
                    max_resize_target_height,
                    max_source_image_width,
                    max_source_image_height,
                    max_source_image_download_size,
                    max_source_image_size,
                },
            },
        )
    }
}

} // verus!
