//! Where a deployment goes: the destination specifier and its parts.
use crate::error::{DeployError, DeployErrorView, Failure, FailureView};
use crate::text::{chars_of, concat3, text_eq};
use vstd::prelude::*;

verus! {

/// The kind of operating system a destination runs.
#[derive(Debug, PartialEq, Eq, Clone, Copy, Structural)]
pub enum Flavor {
    /// NixOS, the default.
    Nixos,
}

impl Default for Flavor {
    fn default() -> (flavor: Flavor)
        ensures
            flavor == Flavor::Nixos,
    {
        Flavor::Nixos
    }
}

impl Flavor {
    /// The flavor that `name` spells, if any.
    pub open spec fn named(name: Seq<char>) -> Option<Flavor> {
        if name == "nixos"@ {
            Some(Flavor::Nixos)
        } else {
            None
        }
    }

    /// Reads a flavor from its name. Only `nixos` names one; any other text
    /// is reported back in the error.
    pub fn from_str(name: &str) -> (flavor: Result<Flavor, DeployError>)
        ensures
            match flavor {
                Ok(flavor) => Flavor::named(name@) == Some(flavor),
                Err(error) => Flavor::named(name@) is None && error@ == DeployErrorView::new(
                    FailureView::InvalidFlavor(name@),
                ),
            },
    {
        if text_eq(name, "nixos") {
            Ok(Flavor::Nixos)
        } else {
            Err(DeployError::new(Failure::InvalidFlavor(name.to_owned())))
        }
    }

    /// The name that [`Flavor::from_str`] reads this flavor from.
    pub fn name(&self) -> (name: &'static str)
        ensures
            Flavor::named(name@) == Some(*self),
    {
        match self {
            Flavor::Nixos => "nixos",
        }
    }
}

/// The parts of an absolute URL that a destination specifier is read from.
#[derive(Debug, Clone, PartialEq, Eq)]
pub struct UrlParts {
    /// The scheme, without the colon.
    pub scheme: String,
    /// The host, where the URL has one.
    pub host: Option<String>,
    /// The path, from its leading slash on; empty where the URL has none.
    pub path: String,
    /// The user name; empty where the URL has none.
    pub username: String,
}

/// The view of [`UrlParts`] that contracts speak of: every text as its sequence
/// of characters.
pub struct UrlPartsView {
    pub scheme: Seq<char>,
    pub host: Option<Seq<char>>,
    pub path: Seq<char>,
    pub username: Seq<char>,
}

impl View for UrlParts {
    type V = UrlPartsView;

    open spec fn view(&self) -> UrlPartsView {
        UrlPartsView {
            scheme: self.scheme@,
            host: match self.host {
                Some(host) => Some(host@),
                None => None,
            },
            path: self.path@,
            username: self.username@,
        }
    }
}

/// The view of the parts, where there are any.
pub open spec fn parts_view(url: Option<UrlParts>) -> Option<UrlPartsView> {
    match url {
        Some(parts) => Some(parts@),
        None => None,
    }
}

/// What `url::Url::parse` makes of `input`: nothing where it is no absolute
/// URL, else the scheme, host, path and user name that the parsed URL
/// reports.
pub uninterp spec fn url_parts(input: Seq<char>) -> Option<UrlPartsView>;

/// Parses `input` as an absolute URL.
///
/// Trusted: calls `url::Url::parse` and, on the URL it returns, `scheme`,
/// `host_str`, `path` and `username`. The contract only gives the outcome its
/// name, [`url_parts`]; it claims nothing about which inputs parse.
#[verifier::external_body]
fn parse_url(input: &str) -> (parts: Option<UrlParts>)
    ensures
        parts_view(parts) == url_parts(input@),
{
    match url::Url::parse(input) {
        Ok(url) => Some(
            UrlParts {
                scheme: url.scheme().to_owned(),
                host: url.host_str().map(str::to_owned),
                path: url.path().to_owned(),
                username: url.username().to_owned(),
            },
        ),
        Err(_) => None,
    }
}

/// One deployment target.
#[derive(Debug, Clone, PartialEq, Eq)]
pub struct Destination {
    pub os_flavor: Flavor,
    /// What the session connects to: a host name, with the user in front
    /// of it where one is given.
    pub hostname: String,
    /// The system configuration to build, where it is not the one named
    /// after the host.
    pub config_name: Option<String>,
}

/// The view of [`Destination`] that contracts speak of: every text as its sequence
/// of characters.
pub struct DestinationView {
    pub os_flavor: Flavor,
    pub hostname: Seq<char>,
    pub config_name: Option<Seq<char>>,
}

impl View for Destination {
    type V = DestinationView;

    open spec fn view(&self) -> DestinationView {
        DestinationView {
            os_flavor: self.os_flavor,
            hostname: self.hostname@,
            config_name: match self.config_name {
                Some(name) => Some(name@),
                None => None,
            },
        }
    }
}

impl DestinationView {
    /// The host has a name, and a configuration name, where there is
    /// one, is not empty.
    pub open spec fn valid(self) -> bool {
        &&& self.hostname.len() > 0
        &&& self.config_name matches Some(name) ==> name.len() > 0
    }

    /// What the session connects to, given the URL's user and host.
    pub open spec fn login(username: Seq<char>, host: Seq<char>) -> Seq<char> {
        if username.len() == 0 {
            host
        } else {
            username + "@"@ + host
        }
    }

    /// The destination that a specifier stands for, given what the URL
    /// parser made of it.
    ///
    /// The empty specifier names no host, whatever the parser made of it.
    /// A specifier that is no URL is a bare host name, of the default
    /// flavor. A URL has to have the name of a flavor as its scheme, and
    /// a host that is not empty; what follows the slash behind the host
    /// names the configuration, and may not be empty.
    pub open spec fn of(input: Seq<char>, url: Option<UrlPartsView>) -> Result<
        DestinationView,
        DeployErrorView,
    > {
        match url {
            _ if input.len() == 0 => Err(
                DeployErrorView::new(FailureView::InvalidDestination(input)),
            ),
            None => Ok(
                DestinationView { os_flavor: Flavor::Nixos, hostname: input, config_name: None },
            ),
            Some(parts) => {
                if Flavor::named(parts.scheme) is Some && (parts.host matches Some(host)
                    && host.len() > 0) && parts.path != seq!['/'] {
                    Ok(
                        DestinationView {
                            os_flavor: Flavor::named(parts.scheme)->0,
                            hostname: Self::login(parts.username, parts.host->0),
                            config_name: if parts.path.len() > 1 && parts.path[0] == '/' {
                                Some(parts.path.skip(1))
                            } else {
                                None
                            },
                        },
                    )
                } else {
                    Err(DeployErrorView::new(FailureView::InvalidDestination(input)))
                }
            },
        }
    }
}

/// Every specifier is read as a valid destination, with a host that has a
/// name, or is reported back as the one that could not be read: whatever
/// the URL parser made of it. The empty specifier is never read as a
/// destination.
pub proof fn lemma_specifier_total(input: Seq<char>, url: Option<UrlPartsView>)
    ensures
        match DestinationView::of(input, url) {
            Ok(destination) => destination.valid(),
            Err(error) => error == DeployErrorView::new(FailureView::InvalidDestination(input)),
        },
        input.len() == 0 ==> DestinationView::of(input, url) is Err,
{
}

impl Destination {
    /// Reads a destination from the specifier `input`, given the parts of
    /// `input` as a URL, or `None` where it is no URL.
    pub fn from_url(input: &str, url: Option<UrlParts>) -> (destination: Result<
        Destination,
        DeployError,
    >)
        ensures
            match destination {
                Ok(destination) => DestinationView::of(input@, parts_view(url))
                    == Ok::<DestinationView, DeployErrorView>(destination@),
                Err(error) => DestinationView::of(input@, parts_view(url))
                    == Err::<DestinationView, DeployErrorView>(error@),
            },
    {
        match url {
            _ if input.unicode_len() == 0 => Err(
                DeployError::new(Failure::InvalidDestination(input.to_owned())),
            ),
            None => Ok(
                Destination { os_flavor: Flavor::Nixos, hostname: input.to_owned(), config_name: None },
            ),
            Some(parts) => {
                let path = chars_of(parts.path.as_str());
                let empty_name = path.len() == 1 && path[0] == '/';
                proof {
                    if path@ == seq!['/'] {
                        assert(path@.len() == 1 && path@[0] == '/');
                    }
                    if empty_name {
                        assert(path@ =~= seq!['/']);
                    }
                }
                match (Flavor::from_str(parts.scheme.as_str()), parts.host) {
                    (Ok(os_flavor), Some(host)) if !empty_name && host.as_str().unicode_len()
                        > 0 => {
                        let hostname = if parts.username.as_str().unicode_len() == 0 {
                            host
                        } else {
                            concat3(parts.username.as_str(), "@", host.as_str())
                        };
                        let config_name = if path.len() > 1 && path[0] == '/' {
                            let name = parts.path.as_str().substring_char(1, path.len());
                            assert(name@ =~= parts.path@.skip(1));
                            Some(name.to_owned())
                        } else {
                            None
                        };
                        Ok(Destination { os_flavor, hostname, config_name })
                    },
                    _ => Err(DeployError::new(Failure::InvalidDestination(input.to_owned()))),
                }
            },
        }
    }

    /// Reads a destination from a specifier: a bare host name, or a URL of
    /// the form `nixos://[user@]host[/config-name]`. A specifier without a
    /// host is refused.
    pub fn from_str(input: &str) -> (destination: Result<Destination, DeployError>)
        ensures
            match destination {
                Ok(destination) => DestinationView::of(input@, url_parts(input@)) == Ok::<
                    DestinationView,
                    DeployErrorView,
                >(destination@) && destination@.valid() && input@.len() > 0,
                Err(error) => DestinationView::of(input@, url_parts(input@)) == Err::<
                    DestinationView,
                    DeployErrorView,
                >(error@) && error@ == DeployErrorView::new(FailureView::InvalidDestination(input@)),
            },
            input@.len() == 0 ==> destination is Err,
    {
        let url = parse_url(input);
        proof {
            assert(parts_view(url) == url_parts(input@));
            lemma_specifier_total(input@, url_parts(input@));
        }
        Destination::from_url(input, url)
    }
}

} // verus!
