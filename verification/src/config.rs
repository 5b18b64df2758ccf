use vstd::prelude::*;

verus! {

/// The static settings of the tool: the sender identity and subject
/// used for dispatch, the feedback identity, and the settings password.
/// The shell loads and stores the record; the dispatch core only reads
/// the values handed to it.
#[derive(Debug)]
pub struct Config {
    sender_name: String,
    sender_mail: String,
    sender_password: String,
    title: String,
    smtp_transport: String,
    feedback_mail: String,
    feedback_recepient: String,
    feedback_subject: String,
    settings_password: String,
}

/// The mathematical value of a configuration record: every field as a
/// character sequence.
pub ghost struct ConfigView {
    pub sender_name: Seq<char>,
    pub sender_mail: Seq<char>,
    pub sender_password: Seq<char>,
    pub title: Seq<char>,
    pub smtp_transport: Seq<char>,
    pub feedback_mail: Seq<char>,
    pub feedback_recepient: Seq<char>,
    pub feedback_subject: Seq<char>,
    pub settings_password: Seq<char>,
}

impl View for Config {
    type V = ConfigView;

    closed spec fn view(&self) -> ConfigView {
        ConfigView {
            sender_name: self.sender_name@,
            sender_mail: self.sender_mail@,
            sender_password: self.sender_password@,
            title: self.title@,
            smtp_transport: self.smtp_transport@,
            feedback_mail: self.feedback_mail@,
            feedback_recepient: self.feedback_recepient@,
            feedback_subject: self.feedback_subject@,
            settings_password: self.settings_password@,
        }
    }
}

impl Default for Config {
    /// A record with every field empty; the shell fills it from the
    /// stored settings.
    fn default() -> (r: Config)
        ensures
            r@ == (ConfigView {
                sender_name: Seq::empty(),
                sender_mail: Seq::empty(),
                sender_password: Seq::empty(),
                title: Seq::empty(),
                smtp_transport: Seq::empty(),
                feedback_mail: Seq::empty(),
                feedback_recepient: Seq::empty(),
                feedback_subject: Seq::empty(),
                settings_password: Seq::empty(),
            }),
    {
        Config {
            sender_name: String::new(),
            sender_mail: String::new(),
            sender_password: String::new(),
            title: String::new(),
            smtp_transport: String::new(),
            feedback_mail: String::new(),
            feedback_recepient: String::new(),
            feedback_subject: String::new(),
            settings_password: String::new(),
        }
    }
}

impl Config {
    /// The sender's display name.
    pub fn sender_name(&self) -> (r: &str)
        ensures
            r@ == self@.sender_name,
    {
        self.sender_name.as_str()
    }

    pub fn save_sender_name(&mut self, text: String)
        ensures
            final(self)@ == (ConfigView { sender_name: text@, ..old(self)@ }),
    {
        self.sender_name = text;
    }

    /// The sender's address, as configured.
    pub fn sender_mail(&self) -> (r: &str)
        ensures
            r@ == self@.sender_mail,
    {
        self.sender_mail.as_str()
    }

    pub fn save_sender_mail(&mut self, text: String)
        ensures
            final(self)@ == (ConfigView { sender_mail: text@, ..old(self)@ }),
    {
        self.sender_mail = text;
    }

    /// The credential secret paired with the sender address.
    pub fn sender_password(&self) -> (r: &str)
        ensures
            r@ == self@.sender_password,
    {
        self.sender_password.as_str()
    }

    pub fn save_sender_password(&mut self, text: String)
        ensures
            final(self)@ == (ConfigView { sender_password: text@, ..old(self)@ }),
    {
        self.sender_password = text;
    }

    /// The subject line given to dispatched messages.
    pub fn title(&self) -> (r: &str)
        ensures
            r@ == self@.title,
    {
        self.title.as_str()
    }

    /// The subject line, under the older getter name.
    pub fn get_title(&self) -> (r: &str)
        ensures
            r@ == self@.title,
    {
        self.title.as_str()
    }

    pub fn save_title(&mut self, text: String)
        ensures
            final(self)@ == (ConfigView { title: text@, ..old(self)@ }),
    {
        self.title = text;
    }

    /// The host name of the SMTP relay.
    pub fn smtp_transport(&self) -> (r: &str)
        ensures
            r@ == self@.smtp_transport,
    {
        self.smtp_transport.as_str()
    }

    pub fn save_smtp_transport(&mut self, text: String)
        ensures
            final(self)@ == (ConfigView { smtp_transport: text@, ..old(self)@ }),
    {
        self.smtp_transport = text;
    }

    /// The address feedback is sent from.
    pub fn feedback_mail(&self) -> (r: &str)
        ensures
            r@ == self@.feedback_mail,
    {
        self.feedback_mail.as_str()
    }

    pub fn save_feedback_mail(&mut self, text: String)
        ensures
            final(self)@ == (ConfigView { feedback_mail: text@, ..old(self)@ }),
    {
        self.feedback_mail = text;
    }

    /// The address feedback is sent to.
    pub fn feedback_recepient(&self) -> (r: &str)
        ensures
            r@ == self@.feedback_recepient,
    {
        self.feedback_recepient.as_str()
    }

    pub fn save_feedback_recepient(&mut self, text: String)
        ensures
            final(self)@ == (ConfigView { feedback_recepient: text@, ..old(self)@ }),
    {
        self.feedback_recepient = text;
    }

    /// The subject line given to feedback messages.
    pub fn feedback_subject(&self) -> (r: &str)
        ensures
            r@ == self@.feedback_subject,
    {
        self.feedback_subject.as_str()
    }

    pub fn save_feedback_subject(&mut self, text: String)
        ensures
            final(self)@ == (ConfigView { feedback_subject: text@, ..old(self)@ }),
    {
        self.feedback_subject = text;
    }

    /// The password that guards the settings screen.
    pub fn settings_password(&self) -> (r: &str)
        ensures
            r@ == self@.settings_password,
    {
        self.settings_password.as_str()
    }

    pub fn save_settings_password(&mut self, text: String)
        ensures
            final(self)@ == (ConfigView { settings_password: text@, ..old(self)@ }),
    {
        self.settings_password = text;
    }

    /// Whether `password` matches the configured settings password.
    pub fn settings_password_check(&self, password: &str) -> (r: bool)
        ensures
            r == (self@.settings_password == password@),
    {
        let given = password.to_owned();
        self.settings_password == given
    }
}

} // verus!
