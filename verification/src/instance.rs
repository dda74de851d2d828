//! A Kodi instance that the remote talks to, and the settings form through
//! which the user edits one instance or adds another.

use vstd::prelude::*;
use vstd::string::*;

use crate::decimal::{
    all_digits, decimal, lemma_decimal_digits, lemma_parse_decimal, parse_usize, parse_usize_spec,
    usize_to_decimal,
};

verus! {

/// The HTTP port of Kodi's JSON-RPC interface unless configured otherwise.
pub const DEFAULT_HTTP_PORT: usize = 8080;

/// The port of Kodi's event server unless configured otherwise.
pub const DEFAULT_EVENT_PORT: usize = 9777;

/// The port of Kodi's JSON-RPC WebSocket.
pub const DEFAULT_WS_PORT: usize = 9090;

/// The HTTP port that a stored instance without one gets.
pub fn default_http_port() -> (r: usize)
    ensures
        r == DEFAULT_HTTP_PORT,
{
    DEFAULT_HTTP_PORT
}

/// The events port that a stored instance without one gets.
pub fn default_event_port() -> (r: usize)
    ensures
        r == DEFAULT_EVENT_PORT,
{
    DEFAULT_EVENT_PORT
}

/// Whether events are on for a stored instance that does not say.
pub fn truthy() -> (r: bool)
    ensures
        r,
{
    true
}

/// One Kodi installation.
#[derive(Debug)]
pub struct Instance {
    pub label: String,
    pub hostname: String,
    pub http_port: usize,
    pub username: Option<String>,
    pub password: Option<String>,
    pub events: bool,
    pub events_port: usize,
}

/// The text of an optional string.
pub open spec fn string_text(o: Option<String>) -> Option<Seq<char>> {
    match o {
        Some(s) => Some(s@),
        None => None,
    }
}

/// What an instance holds, its texts taken as character sequences.
pub struct InstanceView {
    pub label: Seq<char>,
    pub hostname: Seq<char>,
    pub http_port: usize,
    pub username: Option<Seq<char>>,
    pub password: Option<Seq<char>>,
    pub events: bool,
    pub events_port: usize,
}

impl View for Instance {
    type V = InstanceView;

    open spec fn view(&self) -> InstanceView {
        InstanceView {
            label: self.label@,
            hostname: self.hostname@,
            http_port: self.http_port,
            username: string_text(self.username),
            password: string_text(self.password),
            events: self.events,
            events_port: self.events_port,
        }
    }
}

/// An empty field means "not set"; any other text is kept as it is.
pub open spec fn optional_text(s: Seq<char>) -> Option<Seq<char>> {
    if s.len() == 0 {
        None
    } else {
        Some(s)
    }
}

/// The text a form field shows for an optional value: empty when unset.
pub open spec fn text_or_empty(o: Option<Seq<char>>) -> Seq<char> {
    match o {
        Some(s) => s,
        None => Seq::empty(),
    }
}

/// The message for an HTTP port that is not a number.
pub open spec fn invalid_http_port_message() -> Seq<char> {
    "Invalid HTTP port number"@
}

/// The message for an events port that is not a number.
pub open spec fn invalid_events_port_message() -> Seq<char> {
    "Invalid events port number"@
}

/// The message for a new instance without a hostname.
pub open spec fn empty_hostname_message() -> Seq<char> {
    "Hostname cannot be empty"@
}

/// The fields of the settings form: those of the instance being edited, and
/// those of the instance being added (prefixed `new_`).
#[derive(Debug)]
pub struct ConfigUIState {
    pub label: String,
    pub hostname: String,
    pub http_port: String,
    pub username: String,
    pub password: String,
    pub events: bool,
    pub events_port: String,
    pub new_label: String,
    pub new_hostname: String,
    pub new_http_port: String,
    pub new_username: String,
    pub new_password: String,
    pub new_events: bool,
    pub new_events_port: String,
}

/// What the settings form holds, its texts taken as character sequences.
pub struct ConfigUIView {
    pub label: Seq<char>,
    pub hostname: Seq<char>,
    pub http_port: Seq<char>,
    pub username: Seq<char>,
    pub password: Seq<char>,
    pub events: bool,
    pub events_port: Seq<char>,
    pub new_label: Seq<char>,
    pub new_hostname: Seq<char>,
    pub new_http_port: Seq<char>,
    pub new_username: Seq<char>,
    pub new_password: Seq<char>,
    pub new_events: bool,
    pub new_events_port: Seq<char>,
}

impl View for ConfigUIState {
    type V = ConfigUIView;

    open spec fn view(&self) -> ConfigUIView {
        ConfigUIView {
            label: self.label@,
            hostname: self.hostname@,
            http_port: self.http_port@,
            username: self.username@,
            password: self.password@,
            events: self.events,
            events_port: self.events_port@,
            new_label: self.new_label@,
            new_hostname: self.new_hostname@,
            new_http_port: self.new_http_port@,
            new_username: self.new_username@,
            new_password: self.new_password@,
            new_events: self.new_events,
            new_events_port: self.new_events_port@,
        }
    }
}

impl ConfigUIView {
    /// The empty form: every text empty, every switch off.
    pub open spec fn empty() -> ConfigUIView {
        ConfigUIView {
            label: Seq::empty(),
            hostname: Seq::empty(),
            http_port: Seq::empty(),
            username: Seq::empty(),
            password: Seq::empty(),
            events: false,
            events_port: Seq::empty(),
            new_label: Seq::empty(),
            new_hostname: Seq::empty(),
            new_http_port: Seq::empty(),
            new_username: Seq::empty(),
            new_password: Seq::empty(),
            new_events: false,
            new_events_port: Seq::empty(),
        }
    }

    /// The form after the edit fields show instance `i`; the fields for a
    /// new instance stay as they were.
    pub open spec fn with_instance(self, i: InstanceView) -> ConfigUIView {
        ConfigUIView {
            label: i.label,
            hostname: i.hostname,
            http_port: decimal(i.http_port as nat),
            username: text_or_empty(i.username),
            password: text_or_empty(i.password),
            events: i.events,
            events_port: decimal(i.events_port as nat),
            ..self
        }
    }

    /// The instance that the edit fields describe, or the message for the
    /// first port that is not a number.
    pub open spec fn edited(self) -> Result<InstanceView, Seq<char>> {
        match (parse_usize_spec(self.http_port), parse_usize_spec(self.events_port)) {
            (None, _) => Err(invalid_http_port_message()),
            (Some(_), None) => Err(invalid_events_port_message()),
            (Some(http_port), Some(events_port)) => Ok(
                InstanceView {
                    label: self.label,
                    hostname: self.hostname,
                    http_port,
                    username: optional_text(self.username),
                    password: optional_text(self.password),
                    events: self.events,
                    events_port,
                },
            ),
        }
    }

    /// The instance that the fields for a new instance describe: refused
    /// without a hostname, and a port that is not a number replaced by its
    /// default.
    pub open spec fn added(self) -> Result<InstanceView, Seq<char>> {
        if self.new_hostname.len() == 0 {
            Err(empty_hostname_message())
        } else {
            Ok(
                InstanceView {
                    label: self.new_label,
                    hostname: self.new_hostname,
                    http_port: match parse_usize_spec(self.new_http_port) {
                        Some(p) => p,
                        None => DEFAULT_HTTP_PORT,
                    },
                    username: optional_text(self.new_username),
                    password: optional_text(self.new_password),
                    events: self.new_events,
                    events_port: match parse_usize_spec(self.new_events_port) {
                        Some(p) => p,
                        None => DEFAULT_EVENT_PORT,
                    },
                },
            )
        }
    }
}

/// Whether `r` is the instance result `spec` with texts as strings.
pub open spec fn result_matches(r: Result<Instance, String>, spec: Result<InstanceView, Seq<char>>) -> bool {
    match r {
        Ok(i) => spec == Ok::<InstanceView, Seq<char>>(i@),
        Err(e) => spec == Err::<InstanceView, Seq<char>>(e@),
    }
}

fn copy_text(s: &String) -> (r: String)
    ensures
        r@ == s@,
{
    s.clone()
}

fn optional_string(s: &String) -> (r: Option<String>)
    ensures
        string_text(r) == optional_text(s@),
{
    if s.as_str().is_empty() {
        None
    } else {
        Some(s.clone())
    }
}

fn string_or_empty(o: &Option<String>) -> (r: String)
    ensures
        r@ == text_or_empty(string_text(*o)),
{
    match o {
        Some(s) => s.clone(),
        None => String::new(),
    }
}

impl Instance {
    /// An instance with the same fields.
    pub fn duplicate(&self) -> (r: Instance)
        ensures
            r@ == self@,
    {
        Instance {
            label: copy_text(&self.label),
            hostname: copy_text(&self.hostname),
            http_port: self.http_port,
            username: match &self.username {
                Some(u) => Some(copy_text(u)),
                None => None,
            },
            password: match &self.password {
                Some(p) => Some(copy_text(p)),
                None => None,
            },
            events: self.events,
            events_port: self.events_port,
        }
    }
}

impl Default for ConfigUIState {
    fn default() -> (r: ConfigUIState)
        ensures
            r@ == ConfigUIView::empty(),
    {
        ConfigUIState {
            label: String::new(),
            hostname: String::new(),
            http_port: String::new(),
            username: String::new(),
            password: String::new(),
            events: false,
            events_port: String::new(),
            new_label: String::new(),
            new_hostname: String::new(),
            new_http_port: String::new(),
            new_username: String::new(),
            new_password: String::new(),
            new_events: false,
            new_events_port: String::new(),
        }
    }
}

impl ConfigUIState {
    /// Fills the edit fields from `instance`: ports in decimal, an unset
    /// user name or password as empty text.
    pub fn load_from_instance(&mut self, instance: &Instance)
        ensures
            final(self)@ == old(self)@.with_instance(instance@),
    {
        self.label = copy_text(&instance.label);
        self.hostname = copy_text(&instance.hostname);
        self.http_port = usize_to_decimal(instance.http_port);
        self.username = string_or_empty(&instance.username);
        self.password = string_or_empty(&instance.password);
        self.events = instance.events;
        self.events_port = usize_to_decimal(instance.events_port);
    }

    /// The instance described by the edit fields. Fails with
    /// "Invalid HTTP port number" or "Invalid events port number" when a port
    /// does not parse; an empty user name or password becomes unset.
    pub fn to_instance(&self) -> (r: Result<Instance, String>)
        ensures
            result_matches(r, self@.edited()),
    {
        let http_port = match parse_usize(self.http_port.as_str()) {
            Some(p) => p,
            None => {
                return Err(String::from_str("Invalid HTTP port number"));
            },
        };
        let events_port = match parse_usize(self.events_port.as_str()) {
            Some(p) => p,
            None => {
                return Err(String::from_str("Invalid events port number"));
            },
        };
        Ok(
            Instance {
                label: copy_text(&self.label),
                hostname: copy_text(&self.hostname),
                http_port,
                username: optional_string(&self.username),
                password: optional_string(&self.password),
                events: self.events,
                events_port,
            },
        )
    }

    /// The instance described by the fields for a new instance. Fails with
    /// "Hostname cannot be empty" without a hostname; a port that does not
    /// parse takes its default.
    pub fn new_instance(&self) -> (r: Result<Instance, String>)
        ensures
            result_matches(r, self@.added()),
    {
        if self.new_hostname.as_str().is_empty() {
            return Err(String::from_str("Hostname cannot be empty"));
        }
        let http_port = match parse_usize(self.new_http_port.as_str()) {
            Some(p) => p,
            None => DEFAULT_HTTP_PORT,
        };
        let events_port = match parse_usize(self.new_events_port.as_str()) {
            Some(p) => p,
            None => DEFAULT_EVENT_PORT,
        };
        Ok(
            Instance {
                label: copy_text(&self.new_label),
                hostname: copy_text(&self.new_hostname),
                http_port,
                username: optional_string(&self.new_username),
                password: optional_string(&self.new_password),
                events: self.new_events,
                events_port,
            },
        )
    }

    /// Empties the fields for a new instance and turns events on for the
    /// next one; the edit fields stay.
    pub fn clear_new_instance(&mut self)
        ensures
            final(self)@ == (ConfigUIView {
                new_label: Seq::empty(),
                new_hostname: Seq::empty(),
                new_http_port: Seq::empty(),
                new_username: Seq::empty(),
                new_password: Seq::empty(),
                new_events: true,
                new_events_port: Seq::empty(),
                ..old(self)@
            }),
    {
        self.new_label = String::new();
        self.new_hostname = String::new();
        self.new_http_port = String::new();
        self.new_username = String::new();
        self.new_password = String::new();
        self.new_events = true;
        self.new_events_port = String::new();
    }
}

/// Adding from the form: without a new hostname the form is refused with
/// "Hostname cannot be empty"; otherwise the instance takes the new label,
/// hostname and events switch, a new user name or password when its field is
/// not empty (unset when it is), and each new port when its text parses,
/// 8080 and 9777 when not.
pub proof fn lemma_added_instance(form: ConfigUIView)
    ensures
        form.new_hostname.len() == 0 ==> form.added() == Err::<InstanceView, Seq<char>>(
            "Hostname cannot be empty"@,
        ),
        form.new_hostname.len() > 0 ==> form.added() is Ok,
        form.added() matches Ok(i) ==> {
            &&& i.label == form.new_label
            &&& i.hostname == form.new_hostname
            &&& i.events == form.new_events
            &&& (form.new_username.len() == 0 ==> i.username is None)
            &&& (form.new_username.len() > 0 ==> i.username == Some(form.new_username))
            &&& (form.new_password.len() == 0 ==> i.password is None)
            &&& (form.new_password.len() > 0 ==> i.password == Some(form.new_password))
            &&& (parse_usize_spec(form.new_http_port) matches Some(p) ==> i.http_port == p)
            &&& (parse_usize_spec(form.new_http_port) is None ==> i.http_port == 8080)
            &&& (parse_usize_spec(form.new_events_port) matches Some(p) ==> i.events_port == p)
            &&& (parse_usize_spec(form.new_events_port) is None ==> i.events_port == 9777)
        },
{
}

/// What adding gives depends on the fields for a new instance only: the
/// edit fields play no part.
pub proof fn lemma_added_ignores_edit_fields(f: ConfigUIView, g: ConfigUIView)
    requires
        f.new_label == g.new_label,
        f.new_hostname == g.new_hostname,
        f.new_http_port == g.new_http_port,
        f.new_username == g.new_username,
        f.new_password == g.new_password,
        f.new_events == g.new_events,
        f.new_events_port == g.new_events_port,
    ensures
        f.added() == g.added(),
{
}

/// Editing from the form: an HTTP port text that does not parse is refused
/// with "Invalid HTTP port number", else an events port text that does not
/// parse with "Invalid events port number"; otherwise the instance takes
/// the edit fields' label, hostname, ports and events switch, and a user
/// name or password when its field is not empty (unset when it is).
pub proof fn lemma_edited_instance(form: ConfigUIView)
    ensures
        parse_usize_spec(form.http_port) is None ==> form.edited() == Err::<InstanceView, Seq<char>>(
            "Invalid HTTP port number"@,
        ),
        parse_usize_spec(form.http_port) is Some && parse_usize_spec(form.events_port) is None
            ==> form.edited() == Err::<InstanceView, Seq<char>>("Invalid events port number"@),
        parse_usize_spec(form.http_port) is Some && parse_usize_spec(form.events_port) is Some
            ==> form.edited() is Ok,
        form.edited() matches Ok(i) ==> {
            &&& i.label == form.label
            &&& i.hostname == form.hostname
            &&& i.events == form.events
            &&& Some(i.http_port) == parse_usize_spec(form.http_port)
            &&& Some(i.events_port) == parse_usize_spec(form.events_port)
            &&& (form.username.len() == 0 ==> i.username is None)
            &&& (form.username.len() > 0 ==> i.username == Some(form.username))
            &&& (form.password.len() == 0 ==> i.password is None)
            &&& (form.password.len() > 0 ==> i.password == Some(form.password))
        },
{
}

/// What editing gives depends on the edit fields only: the fields for a new
/// instance play no part.
pub proof fn lemma_edited_ignores_new_fields(f: ConfigUIView, g: ConfigUIView)
    requires
        f.label == g.label,
        f.hostname == g.hostname,
        f.http_port == g.http_port,
        f.username == g.username,
        f.password == g.password,
        f.events == g.events,
        f.events_port == g.events_port,
    ensures
        f.edited() == g.edited(),
{
}

/// Showing an instance fills the edit fields: its label, hostname and
/// events switch as they are, its ports as decimal text that parses back to
/// them, its user name and password as they are (empty when unset); the
/// fields for a new instance are untouched.
pub proof fn lemma_shown_instance(form: ConfigUIView, i: InstanceView)
    ensures
        form.with_instance(i).label == i.label,
        form.with_instance(i).hostname == i.hostname,
        form.with_instance(i).events == i.events,
        parse_usize_spec(form.with_instance(i).http_port) == Some(i.http_port),
        parse_usize_spec(form.with_instance(i).events_port) == Some(i.events_port),
        all_digits(form.with_instance(i).http_port),
        all_digits(form.with_instance(i).events_port),
        i.username matches Some(u) ==> form.with_instance(i).username == u,
        i.username is None ==> form.with_instance(i).username.len() == 0,
        i.password matches Some(p) ==> form.with_instance(i).password == p,
        i.password is None ==> form.with_instance(i).password.len() == 0,
        form.with_instance(i).new_label == form.new_label,
        form.with_instance(i).new_hostname == form.new_hostname,
        form.with_instance(i).new_http_port == form.new_http_port,
        form.with_instance(i).new_username == form.new_username,
        form.with_instance(i).new_password == form.new_password,
        form.with_instance(i).new_events == form.new_events,
        form.with_instance(i).new_events_port == form.new_events_port,
{
    lemma_parse_decimal(i.http_port);
    lemma_parse_decimal(i.events_port);
    lemma_decimal_digits(i.http_port as nat);
    lemma_decimal_digits(i.events_port as nat);
}

/// Showing an instance in the edit fields and reading them back gives the
/// same instance, unless it has a user name or password that is set but
/// empty (the form cannot tell that from unset).
pub proof fn lemma_edit_round_trip(form: ConfigUIView, i: InstanceView)
    requires
        i.username != Some(Seq::<char>::empty()),
        i.password != Some(Seq::<char>::empty()),
    ensures
        form.with_instance(i).edited() == Ok::<InstanceView, Seq<char>>(i),
{
    lemma_parse_decimal(i.http_port);
    lemma_parse_decimal(i.events_port);
    let shown = form.with_instance(i);
    if let Some(u) = i.username {
        if u.len() == 0 {
            assert(u =~= Seq::<char>::empty());
        }
    }
    if let Some(p) = i.password {
        if p.len() == 0 {
            assert(p =~= Seq::<char>::empty());
        }
    }
    assert(optional_text(shown.username) == i.username);
    assert(optional_text(shown.password) == i.password);
}

/// Reading the edit fields back into an instance and showing it again
/// keeps every text field except the ports, which come back in their
/// shortest decimal form.
pub proof fn lemma_edit_then_show(form: ConfigUIView, i: InstanceView)
    requires
        form.edited() == Ok::<InstanceView, Seq<char>>(i),
    ensures
        form.with_instance(i).label == form.label,
        form.with_instance(i).hostname == form.hostname,
        form.with_instance(i).username == form.username,
        form.with_instance(i).password == form.password,
        form.with_instance(i).events == form.events,
        parse_usize_spec(form.with_instance(i).http_port) == parse_usize_spec(form.http_port),
        parse_usize_spec(form.with_instance(i).events_port) == parse_usize_spec(form.events_port),
{
    lemma_parse_decimal(i.http_port);
    lemma_parse_decimal(i.events_port);
}

} // verus!
