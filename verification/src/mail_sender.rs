use vstd::prelude::*;

use crate::email::{address_is_valid, address_ok};
use crate::media_type::{content_type_for, content_type_of};
use crate::other_mail_list::{all_entries_ok, OtherMailList};
use crate::paths::{file_name_component, file_name_of, path_is_file};
use crate::person::{Person, PersonView};

verus! {

/// What can go wrong while gathering recipients, attaching a file and
/// dispatching the message.
#[derive(Clone, Copy, Debug, PartialEq, Eq, Structural)]
pub enum MailSenderError {
    /// A supplied address string fails e-mail address parsing.
    InvalidAddress,
    /// The attachment path does not name an existing regular file, or
    /// the file could not be read by send time.
    InvalidFilePath,
    /// A send was attempted with an empty recipient sequence.
    NoRecipients,
    /// A send was attempted with no attachment chosen.
    NoFile,
    /// Message assembly rejected the built structure.
    InvalidMessage,
    /// The relay endpoint could not be constructed from the
    /// configuration.
    NoRemoteConnection,
    /// The transport rejected or failed to deliver the message.
    CouldntSendEmail,
}

impl MailSenderError {
    /// A short description of the failure kind.
    pub fn describe(&self) -> (r: String)
        ensures
            self is InvalidAddress ==> r@ == "invalid address"@,
            self is InvalidFilePath ==> r@ == "invalid file path"@,
            self is NoRecipients ==> r@ == "no recipients"@,
            self is NoFile ==> r@ == "no file"@,
            self is InvalidMessage ==> r@ == "invalid message"@,
            self is NoRemoteConnection ==> r@ == "couldn't open a remote connection"@,
            self is CouldntSendEmail ==> r@ == "couldn't send email"@,
    {
        match self {
            MailSenderError::InvalidAddress => "invalid address".to_owned(),
            MailSenderError::InvalidFilePath => "invalid file path".to_owned(),
            MailSenderError::NoRecipients => "no recipients".to_owned(),
            MailSenderError::NoFile => "no file".to_owned(),
            MailSenderError::InvalidMessage => "invalid message".to_owned(),
            MailSenderError::NoRemoteConnection => "couldn't open a remote connection".to_owned(),
            MailSenderError::CouldntSendEmail => "couldn't send email".to_owned(),
        }
    }
}

/// A recipient whose address has passed validation: the constructor is
/// the only way to build one, and it fails on a string the address
/// parser rejects.
#[derive(Debug)]
pub struct Recipient {
    name: String,
    mail: String,
}

impl View for Recipient {
    type V = PersonView;

    closed spec fn view(&self) -> PersonView {
        PersonView { name: self.name@, mail: self.mail@ }
    }
}

impl DeepView for Recipient {
    type V = PersonView;

    open spec fn deep_view(&self) -> PersonView {
        self.view()
    }
}

impl Recipient {
    /// Validates `mail` and pairs it with the display name; rejects a
    /// string that is no well-formed address.
    pub fn new(name: String, mail: String) -> (r: Result<Recipient, MailSenderError>)
        ensures
            r is Ok <==> address_ok(mail@),
            r matches Ok(rec) ==> rec@ == (PersonView { name: name@, mail: mail@ }),
            r is Err ==> r == Err::<Recipient, MailSenderError>(MailSenderError::InvalidAddress),
    {
        if address_is_valid(mail.as_str()) {
            Ok(Recipient { name, mail })
        } else {
            Err(MailSenderError::InvalidAddress)
        }
    }

    /// The display name.
    pub fn name(&self) -> (r: &String)
        ensures
            r@ == self@.name,
    {
        &self.name
    }

    /// The validated address, as the string it was parsed from.
    pub fn mail(&self) -> (r: &String)
        ensures
            r@ == self@.mail,
    {
        &self.mail
    }

    /// An exact copy, built field by field so its value is known.
    fn duplicate(&self) -> (r: Recipient)
        ensures
            r@ == self@,
    {
        Recipient { name: self.name.clone(), mail: self.mail.clone() }
    }
}

/// Every entry of `s` carries an address the parser accepts.
pub open spec fn all_addresses_ok(s: Seq<PersonView>) -> bool {
    forall|i: int| 0 <= i < s.len() ==> address_ok((#[trigger] s[i]).mail)
}

/// The sequence `s` with every entry equal to `p` removed, the order of
/// the others kept.
pub open spec fn without_pair(s: Seq<PersonView>, p: PersonView) -> Seq<PersonView>
    decreases s.len(),
{
    if s.len() == 0 {
        Seq::empty()
    } else if s.last() == p {
        without_pair(s.drop_last(), p)
    } else {
        without_pair(s.drop_last(), p).push(s.last())
    }
}

/// The message built for one send attempt: plain values only, ready to
/// be handed to a transport. It lives for the duration of one send call
/// and is never persisted.
#[derive(Debug)]
pub struct OutboundMessage {
    /// The configured sender display name.
    pub sender_name: String,
    /// The configured, validated sender address.
    pub sender_mail: String,
    /// One entry per recipient, insertion order preserved.
    pub to: Vec<Recipient>,
    /// The configured subject line.
    pub subject: String,
    /// The attachment part's name: the attachment's file name.
    pub attachment_name: String,
    /// The attachment part's content type.
    pub content_type: String,
    /// The attachment's bytes.
    pub body: Vec<u8>,
}

/// The state of one compose session: the recipients gathered so far and
/// at most one attachment path. A failed operation leaves the state as
/// it was, so the user can correct the problem and retry.
#[derive(Debug)]
pub struct MailSender {
    people: Vec<Recipient>,
    file_path: Option<String>,
}

impl MailSender {
    /// The recipient sequence of the session, in insertion order.
    pub closed spec fn recipients(self) -> Seq<PersonView> {
        self.people.deep_view()
    }

    /// The attachment path, when one has been chosen. Absence is a
    /// state of its own, not an empty path.
    pub closed spec fn attachment(self) -> Option<Seq<char>> {
        match self.file_path {
            Some(p) => Some(p@),
            None => None,
        }
    }

    /// Every recipient of the session carries a validated address.
    pub open spec fn recipients_valid(self) -> bool {
        all_addresses_ok(self.recipients())
    }

    /// A session with no recipients and no attachment.
    pub fn new() -> (r: MailSender)
        ensures
            r.recipients() == Seq::<PersonView>::empty(),
            r.attachment() is None,
    {
        let r = MailSender { people: Vec::new(), file_path: None };
        proof {
            assert(r.recipients() =~= Seq::<PersonView>::empty());
        }
        r
    }

    /// Resets the session for a new compose: no recipients, no
    /// attachment.
    pub fn clear(&mut self)
        ensures
            final(self).recipients() == Seq::<PersonView>::empty(),
            final(self).attachment() is None,
    {
        self.people = Vec::new();
        self.file_path = None;
        proof {
            assert(self.recipients() =~= Seq::<PersonView>::empty());
        }
    }

    /// Validates the entry's address and appends it to the recipient
    /// sequence; an address the parser rejects leaves the session
    /// untouched and is reported as `InvalidAddress`.
    pub fn add_person(&mut self, person: Person) -> (r: Result<(), MailSenderError>)
        ensures
            address_ok(person@.mail) ==> r is Ok && final(self).recipients() == old(
                self,
            ).recipients().push(person@),
            !address_ok(person@.mail) ==> r == Err::<(), MailSenderError>(
                MailSenderError::InvalidAddress,
            ) && *final(self) == *old(self),
            final(self).attachment() == old(self).attachment(),
            old(self).recipients_valid() ==> final(self).recipients_valid(),
    {
        match Recipient::new(person.name, person.mail) {
            Ok(rec) => {
                self.people.push(rec);
                proof {
                    assert(self.recipients() =~= old(self).recipients().push(person@));
                    if old(self).recipients_valid() {
                        assert forall|i: int|
                            0 <= i < self.recipients().len() implies address_ok(
                            (#[trigger] self.recipients()[i]).mail,
                        ) by {
                            if i < old(self).recipients().len() {
                                assert(address_ok(old(self).recipients()[i].mail));
                            }
                        }
                    }
                }
                Ok(())
            },
            Err(e) => Err(e),
        }
    }

    /// Removes every recipient whose name and address both equal
    /// `person`'s; a pair that was never added matches nothing, and the
    /// sequence is left exactly as it was.
    pub fn remove_person(&mut self, person: Person)
        ensures
            final(self).recipients() == without_pair(old(self).recipients(), person@),
            final(self).attachment() == old(self).attachment(),
            old(self).recipients_valid() ==> final(self).recipients_valid(),
    {
        let mut kept: Vec<Recipient> = Vec::new();
        let mut i: usize = 0;
        proof {
            assert(old(self).recipients().subrange(0, 0) =~= Seq::<PersonView>::empty());
        }
        while i < self.people.len()
            invariant
                i <= self.people.len(),
                *self == *old(self),
                kept.deep_view() == without_pair(
                    old(self).recipients().subrange(0, i as int),
                    person@,
                ),
            decreases self.people.len() - i,
        {
            let ghost prefix = old(self).recipients().subrange(0, i as int);
            let ghost step = old(self).recipients().subrange(0, i + 1);
            proof {
                assert(step.drop_last() =~= prefix);
                assert(step.last() == old(self).recipients()[i as int]);
            }
            let q = &self.people[i];
            if *q.name() == person.name && *q.mail() == person.mail {
                proof {
                    assert(q@ == person@);
                }
            } else {
                let copy = q.duplicate();
                let ghost kept_before = kept.deep_view();
                kept.push(copy);
                proof {
                    assert(q@ != person@);
                    assert(kept.deep_view() =~= kept_before.push(q@));
                }
            }
            i += 1;
        }
        proof {
            assert(old(self).recipients().subrange(0, old(self).recipients().len() as int)
                =~= old(self).recipients());
        }
        self.people = kept;
        proof {
            if old(self).recipients_valid() {
                lemma_without_pair_keeps_validity(old(self).recipients(), person@);
            }
        }
    }

    /// Replaces the attachment with `path` when `is_file` reports that
    /// the path names a regular file; otherwise reports
    /// `InvalidFilePath` and leaves any previously set attachment
    /// untouched.
    pub fn record_file(&mut self, path: String, is_file: bool) -> (r: Result<
        (),
        MailSenderError,
    >)
        ensures
            r is Ok <==> is_file,
            is_file ==> final(self).attachment() == Some(path@),
            !is_file ==> r == Err::<(), MailSenderError>(MailSenderError::InvalidFilePath)
                && *final(self) == *old(self),
            final(self).recipients() == old(self).recipients(),
    {
        if is_file {
            self.file_path = Some(path);
            Ok(())
        } else {
            Err(MailSenderError::InvalidFilePath)
        }
    }

    /// Checks that `path` names an existing regular file and records it
    /// as the session's attachment; only one attachment is kept, the
    /// newest. Whether the check succeeds depends on the file system,
    /// so the contract speaks of both outcomes.
    pub fn add_file(&mut self, path: String) -> (r: Result<(), MailSenderError>)
        ensures
            r is Ok ==> final(self).attachment() == Some(path@),
            r is Err ==> r == Err::<(), MailSenderError>(MailSenderError::InvalidFilePath)
                && *final(self) == *old(self),
            final(self).recipients() == old(self).recipients(),
    {
        let on_disk = path_is_file(path.as_str());
        self.record_file(path, on_disk)
    }

    /// True when at least one recipient has been gathered. Reading the
    /// state changes nothing, so repeated calls answer the same.
    pub fn person_list_is_valid(&self) -> (r: bool)
        ensures
            r == (self.recipients().len() > 0),
    {
        self.people.len() > 0
    }

    /// True when an attachment has been chosen. Reading the state
    /// changes nothing, so repeated calls answer the same.
    pub fn file_is_valid(&self) -> (r: bool)
        ensures
            r == (self.attachment() is Some),
    {
        self.file_path.is_some()
    }

    /// The gathered recipients, for inspection.
    pub fn recipient_list(&self) -> (r: &Vec<Recipient>)
        ensures
            r.deep_view() == self.recipients(),
    {
        &self.people
    }

    /// The attachment path, for inspection.
    pub fn attachment_path(&self) -> (r: Option<&String>)
        ensures
            r is Some <==> self.attachment() is Some,
            r matches Some(p) ==> self.attachment() == Some(p@),
    {
        self.file_path.as_ref()
    }

    /// Merges the ad-hoc batch and checks that a send may proceed.
    ///
    /// The batch is validated first and merged only as a whole: one bad
    /// address rejects the whole batch with `InvalidAddress` and the
    /// session keeps its previous state. A valid batch is appended to
    /// the recipient sequence in order; then an empty merged sequence is
    /// `NoRecipients`, and a missing attachment `NoFile`, in that order.
    pub fn prepare_send(&mut self, other_mail_list: &Vec<Person>) -> (r: Result<
        (),
        MailSenderError,
    >)
        ensures
            !all_addresses_ok(other_mail_list.deep_view()) ==> r == Err::<(), MailSenderError>(
                MailSenderError::InvalidAddress,
            ) && *final(self) == *old(self),
            all_addresses_ok(other_mail_list.deep_view()) ==> final(self).recipients() == old(
                self,
            ).recipients() + other_mail_list.deep_view() && final(self).attachment() == old(
                self,
            ).attachment(),
            all_addresses_ok(other_mail_list.deep_view()) && old(self).recipients().len()
                + other_mail_list.deep_view().len() == 0 ==> r == Err::<(), MailSenderError>(
                MailSenderError::NoRecipients,
            ),
            all_addresses_ok(other_mail_list.deep_view()) && old(self).recipients().len()
                + other_mail_list.deep_view().len() > 0 && old(self).attachment() is None ==> r
                == Err::<(), MailSenderError>(MailSenderError::NoFile),
            all_addresses_ok(other_mail_list.deep_view()) && old(self).recipients().len()
                + other_mail_list.deep_view().len() > 0 && old(self).attachment() is Some ==> r
                is Ok,
            old(self).recipients_valid() ==> final(self).recipients_valid(),
    {
        let ghost batch = other_mail_list.deep_view();
        let mut i: usize = 0;
        while i < other_mail_list.len()
            invariant
                i <= other_mail_list.len(),
                batch == other_mail_list.deep_view(),
                *self == *old(self),
                forall|j: int| 0 <= j < i ==> address_ok((#[trigger] batch[j]).mail),
            decreases other_mail_list.len() - i,
        {
            if !address_is_valid(other_mail_list[i].mail.as_str()) {
                proof {
                    assert(!address_ok(batch[i as int].mail));
                }
                return Err(MailSenderError::InvalidAddress);
            }
            i += 1;
        }
        assert(all_addresses_ok(batch));
        proof {
            assert(old(self).recipients() + batch.subrange(0, 0) =~= old(self).recipients());
        }
        let mut k: usize = 0;
        while k < other_mail_list.len()
            invariant
                k <= other_mail_list.len(),
                batch == other_mail_list.deep_view(),
                all_addresses_ok(batch),
                self.people.deep_view() == old(self).recipients() + batch.subrange(0, k as int),
                self.file_path == old(self).file_path,
            decreases other_mail_list.len() - k,
        {
            let p = &other_mail_list[k];
            proof {
                assert(batch[k as int] == p@);
                assert(address_ok(batch[k as int].mail));
            }
            match Recipient::new(p.name.clone(), p.mail.clone()) {
                Ok(rec) => {
                    let ghost before = self.people.deep_view();
                    self.people.push(rec);
                    proof {
                        assert(self.people.deep_view() =~= before.push(p@));
                        assert(batch.subrange(0, k + 1).drop_last() =~= batch.subrange(
                            0,
                            k as int,
                        ));
                        assert(before.push(p@) =~= old(self).recipients() + batch.subrange(
                            0,
                            k + 1,
                        ));
                    }
                },
                Err(e) => {
                    proof {
                        assert(false);
                    }
                    return Err(e);
                },
            }
            k += 1;
        }
        proof {
            assert(batch.subrange(0, batch.len() as int) =~= batch);
            if old(self).recipients_valid() {
                assert forall|i2: int|
                    0 <= i2 < self.recipients().len() implies address_ok(
                    (#[trigger] self.recipients()[i2]).mail,
                ) by {
                    if i2 < old(self).recipients().len() {
                        assert(address_ok(old(self).recipients()[i2].mail));
                    } else {
                        assert(address_ok(batch[i2 - old(self).recipients().len()].mail));
                    }
                }
            }
        }
        if self.people.len() == 0 {
            return Err(MailSenderError::NoRecipients);
        }
        if self.file_path.is_none() {
            return Err(MailSenderError::NoFile);
        }
        Ok(())
    }

    /// Builds the outbound message for the session: the configured
    /// sender identity and subject, one `To` entry per gathered
    /// recipient in order, and the attachment's bytes under its file
    /// name, typed by a guess from the path. The defensive checks
    /// mirror the send order: recipients, attachment, then the sender
    /// address, whose rejection is `InvalidMessage`.
    pub fn compose(
        &self,
        sender_name: &str,
        sender_mail: &str,
        title: &str,
        body: Vec<u8>,
    ) -> (r: Result<OutboundMessage, MailSenderError>)
        ensures
            self.recipients().len() == 0 ==> r == Err::<OutboundMessage, MailSenderError>(
                MailSenderError::NoRecipients,
            ),
            self.recipients().len() > 0 && self.attachment() is None ==> r == Err::<
                OutboundMessage,
                MailSenderError,
            >(MailSenderError::NoFile),
            self.recipients().len() > 0 && self.attachment() is Some && !address_ok(
                sender_mail@,
            ) ==> r == Err::<OutboundMessage, MailSenderError>(MailSenderError::InvalidMessage),
            self.recipients().len() > 0 && self.attachment() is Some && address_ok(sender_mail@)
                ==> (r matches Ok(m) && m.sender_name@ == sender_name@ && m.sender_mail@
                == sender_mail@ && m.to.deep_view() == self.recipients() && m.subject@ == title@
                && m.attachment_name@ == file_name_of(self.attachment().unwrap())
                && m.content_type@ == content_type_of(self.attachment().unwrap()) && m.body@
                == body@),
    {
        if self.people.len() == 0 {
            return Err(MailSenderError::NoRecipients);
        }
        let path = match &self.file_path {
            Some(p) => p,
            None => {
                return Err(MailSenderError::NoFile);
            },
        };
        if !address_is_valid(sender_mail) {
            return Err(MailSenderError::InvalidMessage);
        }
        let mut to: Vec<Recipient> = Vec::new();
        let mut i: usize = 0;
        proof {
            assert(self.recipients().subrange(0, 0) =~= Seq::<PersonView>::empty());
            assert(to.deep_view() =~= Seq::<PersonView>::empty());
        }
        while i < self.people.len()
            invariant
                i <= self.people.len(),
                to.deep_view() == self.recipients().subrange(0, i as int),
            decreases self.people.len() - i,
        {
            let ghost before = to.deep_view();
            to.push(self.people[i].duplicate());
            proof {
                assert(to.deep_view() =~= before.push(self.recipients()[i as int]));
                assert(self.recipients().subrange(0, i + 1).drop_last() =~= self.recipients()
                    .subrange(0, i as int));
            }
            i += 1;
        }
        proof {
            assert(self.recipients().subrange(0, self.recipients().len() as int)
                =~= self.recipients());
        }
        let attachment_name = file_name_component(path.as_str());
        let content_type = content_type_for(path.as_str());
        Ok(
            OutboundMessage {
                sender_name: sender_name.to_owned(),
                sender_mail: sender_mail.to_owned(),
                to,
                subject: title.to_owned(),
                attachment_name,
                content_type,
                body,
            },
        )
    }
}

impl Default for MailSender {
    /// A session with no recipients and no attachment.
    fn default() -> (r: MailSender)
        ensures
            r.recipients() == Seq::<PersonView>::empty(),
            r.attachment() is None,
    {
        MailSender::new()
    }
}

/// The rule the shell applies before it attempts a send: an attachment
/// must be chosen, and either recipients were picked from the roster
/// while the ad-hoc list is untouched, or every filled ad-hoc row holds
/// a well-formed address.
pub fn send_allowed(mail: &MailSender, others: &OtherMailList) -> (r: bool)
    ensures
        r == ((mail.attachment() is Some) && ((mail.recipients().len() > 0 && others.entries().len()
            == 0) || all_entries_ok(others.entries()))),
{
    let file_valid = mail.file_is_valid();
    let list_not_empty = mail.person_list_is_valid() && others.is_empty();
    let others_valid = others.is_valid();
    file_valid && (list_not_empty || others_valid)
}

/// Removing a pair from a sequence of validated entries leaves only
/// validated entries.
pub proof fn lemma_without_pair_keeps_validity(s: Seq<PersonView>, p: PersonView)
    requires
        all_addresses_ok(s),
    ensures
        all_addresses_ok(without_pair(s, p)),
    decreases s.len(),
{
    if s.len() == 0 {
    } else {
        assert(all_addresses_ok(s.drop_last())) by {
            assert forall|i: int|
                0 <= i < s.drop_last().len() implies address_ok(
                (#[trigger] s.drop_last()[i]).mail,
            ) by {
                assert(s.drop_last()[i] == s[i]);
            }
        }
        lemma_without_pair_keeps_validity(s.drop_last(), p);
        if s.last() != p {
            let w = without_pair(s.drop_last(), p).push(s.last());
            assert forall|i: int| 0 <= i < w.len() implies address_ok((#[trigger] w[i]).mail) by {
                if i < w.len() - 1 {
                    assert(w[i] == without_pair(s.drop_last(), p)[i]);
                } else {
                    assert(w[i] == s.last());
                    assert(s.last() == s[s.len() - 1]);
                }
            }
        }
    }
}

} // verus!
