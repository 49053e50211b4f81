//! Actors: the record that is stored for one, the object that stands for it on
//! the wire, and the way from each to the other.

use vstd::prelude::*;
use vstd::string::StringExecFns;
use crate::error::{AppError, AppErrorView, IntegrityFault, ParseFault};
use crate::feed::{FeedDescriptor, FeedSources};
use crate::refresh_time::{current_refresh_time, parse_refresh_time, refresh_seconds};
use crate::text::clone_text;
use crate::web_url::{url_parts, UrlView, WebUrl};

verus! {

/// The record of an actor, local or remote. URLs are stored as texts.
///
/// A well-formed record holds a private key exactly if the actor is local.
#[derive(Debug)]
pub struct DbUser {
    pub id: String,
    pub name: String,
    pub preferred_username: String,
    pub inbox: String,
    pub outbox: String,
    pub local: bool,
    pub public_key: String,
    pub private_key: Option<String>,
    pub last_refreshed_at: String,
}

/// The mathematical value of a [`DbUser`].
pub struct UserView {
    pub id: Seq<char>,
    pub name: Seq<char>,
    pub preferred_username: Seq<char>,
    pub inbox: Seq<char>,
    pub outbox: Seq<char>,
    pub local: bool,
    pub public_key: Seq<char>,
    pub private_key: Option<Seq<char>>,
    pub last_refreshed_at: Seq<char>,
}

impl UserView {
    /// The private key is present exactly if the actor is local, and the refresh
    /// time is of the stored form.
    pub open spec fn wf(self) -> bool {
        &&& self.local <==> self.private_key is Some
        &&& refresh_seconds(self.last_refreshed_at) is Some
    }
}

impl View for DbUser {
    type V = UserView;

    open spec fn view(&self) -> UserView {
        UserView {
            id: self.id@,
            name: self.name@,
            preferred_username: self.preferred_username@,
            inbox: self.inbox@,
            outbox: self.outbox@,
            local: self.local,
            public_key: self.public_key@,
            private_key: self.private_key.deep_view(),
            last_refreshed_at: self.last_refreshed_at@,
        }
    }
}

impl Clone for DbUser {
    fn clone(&self) -> (copy: DbUser)
        ensures
            copy@ == self@,
    {
        DbUser {
            id: self.id.clone(),
            name: self.name.clone(),
            preferred_username: self.preferred_username.clone(),
            inbox: self.inbox.clone(),
            outbox: self.outbox.clone(),
            local: self.local,
            public_key: self.public_key.clone(),
            private_key: clone_text(&self.private_key),
            last_refreshed_at: self.last_refreshed_at.clone(),
        }
    }
}

/// The public key of an actor as its object shows it.
#[derive(Debug)]
pub struct PublicKey {
    pub id: String,
    pub owner: WebUrl,
    pub public_key_pem: String,
}

/// The object that stands for an actor on the wire. It has no place for a
/// private key.
#[derive(Debug)]
pub struct Person {
    pub id: WebUrl,
    pub name: String,
    pub preferred_username: String,
    pub inbox: WebUrl,
    pub outbox: WebUrl,
    pub public_key: PublicKey,
}

/// The mathematical value of a [`PublicKey`].
pub struct PublicKeyView {
    pub id: Seq<char>,
    pub owner: UrlView,
    pub public_key_pem: Seq<char>,
}

/// The mathematical value of a [`Person`].
pub struct PersonView {
    pub id: UrlView,
    pub name: Seq<char>,
    pub preferred_username: Seq<char>,
    pub inbox: UrlView,
    pub outbox: UrlView,
    pub public_key: PublicKeyView,
}

impl View for PublicKey {
    type V = PublicKeyView;

    open spec fn view(&self) -> PublicKeyView {
        PublicKeyView {
            id: self.id@,
            owner: self.owner@,
            public_key_pem: self.public_key_pem@,
        }
    }
}

impl View for Person {
    type V = PersonView;

    open spec fn view(&self) -> PersonView {
        PersonView {
            id: self.id@,
            name: self.name@,
            preferred_username: self.preferred_username@,
            inbox: self.inbox@,
            outbox: self.outbox@,
            public_key: self.public_key@,
        }
    }
}

/// A signing key pair, both keys in PEM.
#[derive(Debug)]
pub struct Keypair {
    pub private_key: String,
    pub public_key: String,
}

/// The three URLs of a local actor.
#[derive(Debug)]
pub struct ActorUrls {
    pub id: WebUrl,
    pub inbox: WebUrl,
    pub outbox: WebUrl,
}

/// Calls `activitypub_federation::http_signatures::generate_actor_keypair` and
/// moves the two keys out. Nothing is stated of them: they are random.
#[verifier::external_body]
fn make_keypair() -> Result<Keypair, activitypub_federation::error::Error> {
    match activitypub_federation::http_signatures::generate_actor_keypair() {
        Ok(pair) => Ok(Keypair { private_key: pair.private_key, public_key: pair.public_key }),
        Err(e) => Err(e),
    }
}

/// The text of a local actor's identifier before it is read as a URL:
/// `https://{domain}/u/{handle}`.
pub open spec fn actor_path(domain: Seq<char>, handle: Seq<char>) -> Seq<char> {
    "https://"@ + domain + "/u/"@ + handle
}

/// The identifier of an actor's public key: the actor's identifier, then
/// `#main-key`.
pub open spec fn main_key_id(owner: Seq<char>) -> Seq<char> {
    owner + "#main-key"@
}

/// The three URLs of the local actor with the given handle on the given domain:
/// its identifier, read from `https://{domain}/u/{handle}`, and its inbox and
/// outbox, read from that text with `/inbox` and `/outbox` behind it. `None`
/// where one of the three texts is no URL.
pub open spec fn actor_urls(domain: Seq<char>, handle: Seq<char>) -> Option<
    (UrlView, UrlView, UrlView),
> {
    let path = actor_path(domain, handle);
    match (url_parts(path), url_parts(path + "/inbox"@), url_parts(path + "/outbox"@)) {
        (Some(id), Some(inbox), Some(outbox)) => Some((id, inbox, outbox)),
        _ => None,
    }
}

/// What stands in the way of a new local actor whatever key pair is made and
/// whenever: handle and domain that make no URLs are `Parse(Url)`; then a failed
/// discovery is handed on as it is; then a discovery that found no feed is
/// `NotFound("Feed Url", handle)`. `None` where nothing stands in the way.
pub open spec fn provision_fault(
    handle: Seq<char>,
    domain: Seq<char>,
    discovery: Result<FeedSources, AppErrorView>,
) -> Option<AppErrorView> {
    if actor_urls(domain, handle) is None {
        Some(AppErrorView::Parse(ParseFault::Url))
    } else {
        match discovery {
            Err(e) => Some(e),
            Ok(sources) => if sources.is_empty() {
                Some(AppErrorView::NotFound { kind: "Feed Url"@, name: handle })
            } else {
                None
            },
        }
    }
}

/// The record of the local actor with the given handle on the given domain,
/// with the given keys, refreshed at the given time. It is named `Hatsu`, is
/// local, and holds the private key.
pub open spec fn local_record(
    handle: Seq<char>,
    domain: Seq<char>,
    private_key: Seq<char>,
    public_key: Seq<char>,
    refreshed_at: Seq<char>,
) -> UserView {
    let (id, inbox, outbox) = actor_urls(domain, handle)->0;
    UserView {
        id: id.text,
        name: "Hatsu"@,
        preferred_username: handle,
        inbox: inbox.text,
        outbox: outbox.text,
        local: true,
        public_key,
        private_key: Some(private_key),
        last_refreshed_at: refreshed_at,
    }
}

/// The record of a new local actor, or the reason why none is made:
/// `provision_fault` if there is one, else `DataIntegrity(Timestamp)` for a
/// refresh time that is not of the stored form, else `local_record`.
pub open spec fn provisioned(
    handle: Seq<char>,
    domain: Seq<char>,
    discovery: Result<FeedSources, AppErrorView>,
    private_key: Seq<char>,
    public_key: Seq<char>,
    refreshed_at: Seq<char>,
) -> Result<UserView, AppErrorView> {
    match provision_fault(handle, domain, discovery) {
        Some(fault) => Err(fault),
        None => if refresh_seconds(refreshed_at) is None {
            Err(AppErrorView::DataIntegrity(IntegrityFault::Timestamp))
        } else {
            Ok(local_record(handle, domain, private_key, public_key, refreshed_at))
        },
    }
}

/// The view of what discovery found.
pub open spec fn discovery_view(discovery: Result<FeedDescriptor, AppError>) -> Result<
    FeedSources,
    AppErrorView,
> {
    match discovery {
        Ok(feed) => Ok(feed@),
        Err(e) => Err(e@),
    }
}

/// The object for a stored record: its three URLs read from their texts, its
/// names as they are, and its public key under the identifier `main_key_id` of
/// the actor's. A record with a text that is no URL has no object:
/// `DataIntegrity(Url)`.
pub open spec fn protocol_object(user: UserView) -> Result<PersonView, AppErrorView> {
    match (url_parts(user.id), url_parts(user.inbox), url_parts(user.outbox)) {
        (Some(id), Some(inbox), Some(outbox)) => Ok(
            PersonView {
                id,
                name: user.name,
                preferred_username: user.preferred_username,
                inbox,
                outbox,
                public_key: PublicKeyView {
                    id: main_key_id(id.text),
                    owner: id,
                    public_key_pem: user.public_key,
                },
            },
        ),
        _ => Err(AppErrorView::DataIntegrity(IntegrityFault::Url)),
    }
}

/// The record of the remote actor that an object stands for, refreshed at the
/// given time.
pub open spec fn remote_record(json: PersonView, refreshed_at: Seq<char>) -> UserView {
    UserView {
        id: json.id.text,
        name: json.name,
        preferred_username: json.preferred_username,
        inbox: json.inbox.text,
        outbox: json.outbox.text,
        local: false,
        public_key: json.public_key.public_key_pem,
        private_key: None,
        last_refreshed_at: refreshed_at,
    }
}

/// Whether a URL is read back from its own serialisation as itself.
pub open spec fn reads_back(url: UrlView) -> bool {
    url_parts(url.text) == Some(url)
}

/// The record of a remote actor stands for the object it was made of: where each
/// URL of an object is read back from its serialisation as itself, and its
/// public key is named as the main key of the actor and owned by it, the object
/// of the record that is made of it is that object again.
pub proof fn lemma_remote_record_keeps_the_object(json: PersonView, refreshed_at: Seq<char>)
    requires
        reads_back(json.id),
        reads_back(json.inbox),
        reads_back(json.outbox),
        json.public_key.id == main_key_id(json.id.text),
        json.public_key.owner == json.id,
    ensures
        protocol_object(remote_record(json, refreshed_at)) == Ok::<_, AppErrorView>(json),
{
}

/// The record of a local actor is well formed once its refresh time is of the
/// stored form, and the record of a remote actor likewise: the first holds a
/// private key, the second holds none.
pub proof fn lemma_private_key_goes_with_locality(
    handle: Seq<char>,
    domain: Seq<char>,
    private_key: Seq<char>,
    public_key: Seq<char>,
    json: PersonView,
    refreshed_at: Seq<char>,
)
    requires
        refresh_seconds(refreshed_at) is Some,
    ensures
        local_record(handle, domain, private_key, public_key, refreshed_at).wf(),
        local_record(handle, domain, private_key, public_key, refreshed_at).private_key is Some,
        remote_record(json, refreshed_at).wf(),
        remote_record(json, refreshed_at).private_key is None,
{
}

/// Reads a stored URL, or reports `DataIntegrity(Url)`.
fn stored_url(text: &String) -> (read: Result<WebUrl, AppError>)
    ensures
        match read {
            Ok(u) => url_parts(text@) == Some(u@),
            Err(e) => url_parts(text@) is None && e@ == AppErrorView::DataIntegrity(
                IntegrityFault::Url,
            ),
        },
{
    match WebUrl::parse(text.as_str()) {
        Ok(url) => Ok(url),
        Err(_) => Err(AppError::DataIntegrity(IntegrityFault::Url)),
    }
}

impl ActorUrls {
    /// The three URLs of the local actor with the given handle on the given
    /// domain, or `Parse(Url)` where handle and domain make none.
    pub fn derive(domain: &str, handle: &str) -> (urls: Result<ActorUrls, AppError>)
        ensures
            match urls {
                Ok(u) => actor_urls(domain@, handle@) == Some((u.id@, u.inbox@, u.outbox@)),
                Err(e) => actor_urls(domain@, handle@) is None && e@ == AppErrorView::Parse(
                    ParseFault::Url,
                ),
            },
    {
        let mut path = "https://".to_owned();
        path.append(domain);
        path.append("/u/");
        path.append(handle);
        let mut inbox_path = path.clone();
        inbox_path.append("/inbox");
        let mut outbox_path = path.clone();
        outbox_path.append("/outbox");
        let id = match WebUrl::parse(path.as_str()) {
            Ok(url) => url,
            Err(e) => {
                return Err(e);
            },
        };
        let inbox = match WebUrl::parse(inbox_path.as_str()) {
            Ok(url) => url,
            Err(e) => {
                return Err(e);
            },
        };
        let outbox = match WebUrl::parse(outbox_path.as_str()) {
            Ok(url) => url,
            Err(e) => {
                return Err(e);
            },
        };
        Ok(ActorUrls { id, inbox, outbox })
    }
}

impl DbUser {
    /// Makes the record of a new local actor from what provisioning has gathered:
    /// `provisioned` of it. The record is local, holds the private key, and is
    /// well formed.
    pub fn provision(
        preferred_username: &str,
        hostname: &str,
        discovery: Result<FeedDescriptor, AppError>,
        keypair: Keypair,
        refreshed_at: String,
    ) -> (user: Result<DbUser, AppError>)
        ensures
            match user {
                Ok(u) => provisioned(
                    preferred_username@,
                    hostname@,
                    discovery_view(discovery),
                    keypair.private_key@,
                    keypair.public_key@,
                    refreshed_at@,
                ) == Ok::<_, AppErrorView>(u@) && u@.wf() && u.local,
                Err(e) => provisioned(
                    preferred_username@,
                    hostname@,
                    discovery_view(discovery),
                    keypair.private_key@,
                    keypair.public_key@,
                    refreshed_at@,
                ) == Err::<UserView, _>(e@),
            },
    {
        let urls = match ActorUrls::derive(hostname, preferred_username) {
            Ok(urls) => urls,
            Err(e) => {
                return Err(e);
            },
        };
        let feed = match discovery {
            Ok(feed) => feed,
            Err(e) => {
                return Err(e);
            },
        };
        if feed.is_empty() {
            return Err(AppError::not_found("Feed Url", preferred_username));
        }
        match parse_refresh_time(refreshed_at.as_str()) {
            Ok(_) => {},
            Err(e) => {
                return Err(e);
            },
        }
        Ok(
            DbUser {
                id: urls.id.as_str().to_owned(),
                name: "Hatsu".to_owned(),
                preferred_username: preferred_username.to_owned(),
                inbox: urls.inbox.as_str().to_owned(),
                outbox: urls.outbox.as_str().to_owned(),
                local: true,
                public_key: keypair.public_key,
                private_key: Some(keypair.private_key),
                last_refreshed_at: refreshed_at,
            },
        )
    }

    /// Provisions a local actor for a handle on a domain: derives its URLs, takes
    /// what feed discovery found, makes a fresh signing key pair, and stamps the
    /// record with the present time.
    ///
    /// Where `provision_fault` names a fault, that is the result, and no key pair
    /// is made. Else the result is the `local_record` with the key pair and the
    /// time, unless the key pair cannot be made (`KeyGeneration`) or the time
    /// cannot be written in the stored form (`DataIntegrity(Timestamp)`).
    pub fn new(
        preferred_username: &str,
        hostname: &str,
        discovery: Result<FeedDescriptor, AppError>,
    ) -> (user: Result<DbUser, AppError>)
        ensures
            match provision_fault(preferred_username@, hostname@, discovery_view(discovery)) {
                Some(fault) => user matches Err(e) && e@ == fault,
                None => match user {
                    Ok(u) => u@.wf() && u@.private_key is Some && u@ == local_record(
                        preferred_username@,
                        hostname@,
                        u@.private_key->0,
                        u@.public_key,
                        u@.last_refreshed_at,
                    ),
                    Err(e) => e@ == AppErrorView::KeyGeneration || e@
                        == AppErrorView::DataIntegrity(IntegrityFault::Timestamp),
                },
            },
    {
        match ActorUrls::derive(hostname, preferred_username) {
            Ok(_) => {},
            Err(e) => {
                return Err(e);
            },
        }
        match &discovery {
            Ok(feed) => {
                if feed.is_empty() {
                    return Err(AppError::not_found("Feed Url", preferred_username));
                }
            },
            Err(e) => {
                return Err(e.clone());
            },
        }
        let keypair = match make_keypair() {
            Ok(pair) => pair,
            Err(_) => {
                return Err(AppError::KeyGeneration);
            },
        };
        let refreshed_at = match current_refresh_time() {
            Ok(text) => text,
            Err(e) => {
                return Err(e);
            },
        };
        DbUser::provision(preferred_username, hostname, discovery, keypair, refreshed_at)
    }

    /// When the record was last refreshed, in seconds from 1970-01-01 00:00:00 on
    /// the calendar it was written in. A stored time that is not of the form
    /// `YYYY-MM-DD HH:MM:SS` is `DataIntegrity(Timestamp)`.
    pub fn last_refreshed_at(&self) -> (at: Result<i64, AppError>)
        ensures
            match at {
                Ok(seconds) => refresh_seconds(self@.last_refreshed_at) == Some(seconds),
                Err(e) => refresh_seconds(self@.last_refreshed_at) is None && e@
                    == AppErrorView::DataIntegrity(IntegrityFault::Timestamp),
            },
            self@.wf() ==> at is Ok,
    {
        parse_refresh_time(self.last_refreshed_at.as_str())
    }

    /// The actor's identifier as a URL, or `DataIntegrity(Url)` where the stored
    /// text is none.
    pub fn id(&self) -> (id: Result<WebUrl, AppError>)
        ensures
            match id {
                Ok(u) => url_parts(self@.id) == Some(u@),
                Err(e) => url_parts(self@.id) is None && e@ == AppErrorView::DataIntegrity(
                    IntegrityFault::Url,
                ),
            },
    {
        stored_url(&self.id)
    }

    /// The actor's inbox as a URL, or `DataIntegrity(Url)` where the stored text
    /// is none.
    pub fn inbox(&self) -> (inbox: Result<WebUrl, AppError>)
        ensures
            match inbox {
                Ok(u) => url_parts(self@.inbox) == Some(u@),
                Err(e) => url_parts(self@.inbox) is None && e@ == AppErrorView::DataIntegrity(
                    IntegrityFault::Url,
                ),
            },
    {
        stored_url(&self.inbox)
    }

    /// The actor's public key in PEM.
    pub fn public_key_pem(&self) -> (pem: &str)
        ensures
            pem@ == self@.public_key,
    {
        self.public_key.as_str()
    }

    /// The actor's private key in PEM: present for a local actor, absent for a
    /// remote one.
    pub fn private_key_pem(&self) -> (pem: Option<String>)
        ensures
            pem.deep_view() == self@.private_key,
            self@.wf() ==> (pem is Some <==> self.local),
    {
        clone_text(&self.private_key)
    }

    /// The object that stands for the actor on the wire: `protocol_object` of the
    /// record. The private key is not part of it.
    pub fn into_json(self) -> (json: Result<Person, AppError>)
        ensures
            match json {
                Ok(p) => protocol_object(self@) == Ok::<_, AppErrorView>(p@),
                Err(e) => protocol_object(self@) == Err::<PersonView, _>(e@),
            },
    {
        let id = match stored_url(&self.id) {
            Ok(url) => url,
            Err(e) => {
                return Err(e);
            },
        };
        let inbox = match stored_url(&self.inbox) {
            Ok(url) => url,
            Err(e) => {
                return Err(e);
            },
        };
        let outbox = match stored_url(&self.outbox) {
            Ok(url) => url,
            Err(e) => {
                return Err(e);
            },
        };
        let mut key_id = id.as_str().to_owned();
        key_id.append("#main-key");
        let public_key = PublicKey {
            id: key_id,
            owner: id.clone(),
            public_key_pem: self.public_key,
        };
        Ok(
            Person {
                id,
                name: self.name,
                preferred_username: self.preferred_username,
                inbox,
                outbox,
                public_key,
            },
        )
    }

    /// Checks where an object comes from: its identifier has to have the domain
    /// of the URL that it was expected from. An object from elsewhere is
    /// `DomainVerification`.
    pub fn verify(json: &Person, expected_domain: &WebUrl) -> (verified: Result<(), AppError>)
        ensures
            json@.id.domain == expected_domain@.domain <==> verified is Ok,
            verified matches Err(e) ==> e@ == AppErrorView::DomainVerification,
    {
        json.id.verify_domain(expected_domain)
    }

    /// The record of the remote actor that an object stands for, refreshed at the
    /// given time: `remote_record` of the two. A time that is not of the stored
    /// form is `DataIntegrity(Timestamp)`.
    pub fn remote(json: Person, refreshed_at: String) -> (user: Result<DbUser, AppError>)
        ensures
            match user {
                Ok(u) => refresh_seconds(refreshed_at@) is Some && u@ == remote_record(
                    json@,
                    refreshed_at@,
                ) && u@.wf(),
                Err(e) => refresh_seconds(refreshed_at@) is None && e@
                    == AppErrorView::DataIntegrity(IntegrityFault::Timestamp),
            },
    {
        match parse_refresh_time(refreshed_at.as_str()) {
            Ok(_) => {},
            Err(e) => {
                return Err(e);
            },
        }
        Ok(
            DbUser {
                id: json.id.as_str().to_owned(),
                name: json.name,
                preferred_username: json.preferred_username,
                inbox: json.inbox.as_str().to_owned(),
                outbox: json.outbox.as_str().to_owned(),
                local: false,
                public_key: json.public_key.public_key_pem,
                private_key: None,
                last_refreshed_at: refreshed_at,
            },
        )
    }

    /// The record of the remote actor that an object stands for, refreshed now.
    /// The record is remote and holds no private key.
    pub fn from_json(json: Person) -> (user: Result<DbUser, AppError>)
        ensures
            match user {
                Ok(u) => u@.wf() && u@ == remote_record(json@, u@.last_refreshed_at),
                Err(e) => e@ == AppErrorView::DataIntegrity(IntegrityFault::Timestamp),
            },
    {
        match current_refresh_time() {
            Ok(refreshed_at) => DbUser::remote(json, refreshed_at),
            Err(e) => Err(e),
        }
    }

    /// Takes in an object that arrived from the given URL: checks where it comes
    /// from, and only then makes a record of it. An object from another domain
    /// is `DomainVerification`, and nothing else is: no record is made of it.
    /// An object from the expected domain becomes the record of a remote actor,
    /// refreshed now.
    pub fn receive(json: Person, expected_domain: &WebUrl) -> (user: Result<DbUser, AppError>)
        ensures
            json@.id.domain != expected_domain@.domain <==> (user matches Err(e) && e@
                == AppErrorView::DomainVerification),
            match user {
                Ok(u) => json@.id.domain == expected_domain@.domain && u@.wf() && u@
                    == remote_record(json@, u@.last_refreshed_at),
                Err(e) => if json@.id.domain == expected_domain@.domain {
                    e@ == AppErrorView::DataIntegrity(IntegrityFault::Timestamp)
                } else {
                    e@ == AppErrorView::DomainVerification
                },
            },
    {
        match DbUser::verify(&json, expected_domain) {
            Ok(()) => DbUser::from_json(json),
            Err(e) => Err(e),
        }
    }
}

} // verus!
