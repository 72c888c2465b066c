use vstd::prelude::*;
use vstd::string::*;

verus! {

/// One alert template: a plain-text body and its HTML counterpart.
pub struct MatrixMessageConfig {
    pub plain: String,
    pub html: String,
}

/// Chat-side settings: credentials, target room and alert templates.
pub struct MatrixConfig {
    pub user: String,
    pub password: String,
    pub room_id: String,
    pub messages: Vec<MatrixMessageConfig>,
}

/// One monitored inventory entry and its low-stock threshold.
pub struct HomeBoxItemConfig {
    pub asset_id: String,
    pub threshold: i32,
}

/// Inventory-side settings: service location, credentials and items.
pub struct HomeBoxConfig {
    pub base_url: String,
    pub username: String,
    pub password: String,
    pub items: Vec<HomeBoxItemConfig>,
}

/// The whole configuration of a run.
pub struct Config {
    pub matrix: MatrixConfig,
    pub homebox: HomeBoxConfig,
}

/// Why a configuration was rejected.
#[derive(PartialEq, Eq, Structural, Debug, Clone, Copy)]
pub enum ConfigError {
    EmptyMatrixUser,
    EmptyMatrixPassword,
    EmptyMatrixRoomId,
    NoMatrixMessages,
    EmptyMessagePlain,
    EmptyMessageHtml,
    EmptyHomeBoxBaseUrl,
    EmptyHomeBoxUsername,
    EmptyHomeBoxPassword,
}

impl ConfigError {
    /// A human-readable description of the defect.
    pub fn message(&self) -> String {
        match self {
            ConfigError::EmptyMatrixUser => "matrix user must not be empty".to_string(),
            ConfigError::EmptyMatrixPassword => "matrix password must not be empty".to_string(),
            ConfigError::EmptyMatrixRoomId => "matrix room id must not be empty".to_string(),
            ConfigError::NoMatrixMessages => "matrix messages must not be empty".to_string(),
            ConfigError::EmptyMessagePlain => "matrix message plain must not be empty".to_string(),
            ConfigError::EmptyMessageHtml => "matrix message html must not be empty".to_string(),
            ConfigError::EmptyHomeBoxBaseUrl => "homebox base url must not be empty".to_string(),
            ConfigError::EmptyHomeBoxUsername => "homebox username must not be empty".to_string(),
            ConfigError::EmptyHomeBoxPassword => "homebox password must not be empty".to_string(),
        }
    }
}

/// The defect of a single template, if it has one.
pub open spec fn message_defect(m: MatrixMessageConfig) -> Option<ConfigError> {
    if m.plain@.len() == 0 {
        Some(ConfigError::EmptyMessagePlain)
    } else if m.html@.len() == 0 {
        Some(ConfigError::EmptyMessageHtml)
    } else {
        None
    }
}

/// The defect of the first defective template, scanning in order.
pub open spec fn first_message_defect(ms: Seq<MatrixMessageConfig>) -> Option<ConfigError>
    decreases ms.len(),
{
    if ms.len() == 0 {
        None
    } else if message_defect(ms[0]) is Some {
        message_defect(ms[0])
    } else {
        first_message_defect(ms.skip(1))
    }
}

impl MatrixConfig {
    /// The verdict of validation: the first failing rule, in order.
    pub open spec fn verdict(&self) -> Result<(), ConfigError> {
        if self.user@.len() == 0 {
            Err(ConfigError::EmptyMatrixUser)
        } else if self.password@.len() == 0 {
            Err(ConfigError::EmptyMatrixPassword)
        } else if self.room_id@.len() == 0 {
            Err(ConfigError::EmptyMatrixRoomId)
        } else if self.messages@.len() == 0 {
            Err(ConfigError::NoMatrixMessages)
        } else {
            match first_message_defect(self.messages@) {
                Some(e) => Err(e),
                None => Ok(()),
            }
        }
    }

    /// Checks that every field is filled in and that every template has both bodies.
    pub fn validate(&self) -> (r: Result<(), ConfigError>)
        ensures
            r == self.verdict(),
    {
        if self.user.as_str().is_empty() {
            return Err(ConfigError::EmptyMatrixUser);
        } else if self.password.as_str().is_empty() {
            return Err(ConfigError::EmptyMatrixPassword);
        } else if self.room_id.as_str().is_empty() {
            return Err(ConfigError::EmptyMatrixRoomId);
        } else if self.messages.len() == 0 {
            return Err(ConfigError::NoMatrixMessages);
        }
        let mut i: usize = 0;
        assert(self.messages@.skip(0) =~= self.messages@);
        while i < self.messages.len()
            invariant
                0 <= i <= self.messages@.len(),
                self.user@.len() > 0,
                self.password@.len() > 0,
                self.room_id@.len() > 0,
                self.messages@.len() > 0,
                first_message_defect(self.messages@) == first_message_defect(
                    self.messages@.skip(i as int),
                ),
            decreases self.messages@.len() - i,
        {
            let m = &self.messages[i];
            assert(self.messages@.skip(i as int)[0] == self.messages@[i as int]);
            if m.plain.as_str().is_empty() {
                assert(message_defect(self.messages@[i as int]) is Some);
                return Err(ConfigError::EmptyMessagePlain);
            } else if m.html.as_str().is_empty() {
                assert(message_defect(self.messages@[i as int]) is Some);
                return Err(ConfigError::EmptyMessageHtml);
            }
            assert(self.messages@.skip(i as int).skip(1) =~= self.messages@.skip(i + 1));
            i = i + 1;
        }
        assert(self.messages@.skip(i as int).len() == 0);
        Ok(())
    }
}

impl HomeBoxConfig {
    /// The verdict of validation: the first failing rule, in order.
    pub open spec fn verdict(&self) -> Result<(), ConfigError> {
        if self.base_url@.len() == 0 {
            Err(ConfigError::EmptyHomeBoxBaseUrl)
        } else if self.username@.len() == 0 {
            Err(ConfigError::EmptyHomeBoxUsername)
        } else if self.password@.len() == 0 {
            Err(ConfigError::EmptyHomeBoxPassword)
        } else {
            Ok(())
        }
    }

    /// Checks that the service location and credentials are filled in.
    pub fn validate(&self) -> (r: Result<(), ConfigError>)
        ensures
            r == self.verdict(),
    {
        if self.base_url.as_str().is_empty() {
            Err(ConfigError::EmptyHomeBoxBaseUrl)
        } else if self.username.as_str().is_empty() {
            Err(ConfigError::EmptyHomeBoxUsername)
        } else if self.password.as_str().is_empty() {
            Err(ConfigError::EmptyHomeBoxPassword)
        } else {
            Ok(())
        }
    }
}

impl Config {
    /// The verdict of validation: chat settings first, then inventory settings.
    pub open spec fn verdict(&self) -> Result<(), ConfigError> {
        match self.matrix.verdict() {
            Err(e) => Err(e),
            Ok(()) => self.homebox.verdict(),
        }
    }

    /// Whether the configuration passes validation.
    pub open spec fn is_valid(&self) -> bool {
        self.verdict() is Ok
    }

    /// Validates both halves of the configuration.
    pub fn validate(&self) -> (r: Result<(), ConfigError>)
        ensures
            r == self.verdict(),
    {
        match self.matrix.validate() {
            Err(e) => Err(e),
            Ok(()) => self.homebox.validate(),
        }
    }
}

impl Default for Config {
    /// A starting configuration: a placeholder bot account with an empty
    /// password, one low-stock template and one demo item with threshold 5.
    fn default() -> (r: Config)
        ensures
            r.matrix.user@ == "@bot:example.com"@,
            r.matrix.password@ == ""@,
            r.matrix.room_id@ == "aslkdfasdlkfj1234a:example.com"@,
            r.matrix.messages@.len() == 1,
            r.matrix.messages@[0].plain@
                == "\u{26a0}\u{fe0f} Low stock: {name} (Quantity: {quantity}, Threshold: {threshold})"@,
            r.matrix.messages@[0].html@
                == "\u{26a0}\u{fe0f} <b>Low stock</b>: <code>{name}</code> (Quantity: <b>{quantity}</b>, Threshold: <i>{threshold}</i>)"@,
            r.homebox.base_url@ == "https://demo.homebox.software"@,
            r.homebox.username@ == "foo"@,
            r.homebox.password@ == "baz"@,
            r.homebox.items@.len() == 1,
            r.homebox.items@[0].asset_id@ == "000-001"@,
            r.homebox.items@[0].threshold == 5,
    {
        let mut messages: Vec<MatrixMessageConfig> = Vec::new();
        messages.push(
            MatrixMessageConfig {
                plain: String::from_str(
                    "\u{26a0}\u{fe0f} Low stock: {name} (Quantity: {quantity}, Threshold: {threshold})",
                ),
                html: String::from_str(
                    "\u{26a0}\u{fe0f} <b>Low stock</b>: <code>{name}</code> (Quantity: <b>{quantity}</b>, Threshold: <i>{threshold}</i>)",
                ),
            },
        );
        let mut items: Vec<HomeBoxItemConfig> = Vec::new();
        items.push(HomeBoxItemConfig { asset_id: String::from_str("000-001"), threshold: 5 });
        Config {
            matrix: MatrixConfig {
                user: String::from_str("@bot:example.com"),
                password: String::from_str(""),
                room_id: String::from_str("aslkdfasdlkfj1234a:example.com"),
                messages,
            },
            homebox: HomeBoxConfig {
                base_url: String::from_str("https://demo.homebox.software"),
                username: String::from_str("foo"),
                password: String::from_str("baz"),
                items,
            },
        }
    }
}

} // verus!
