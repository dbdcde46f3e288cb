//! Request bodies of the Mastodon REST API
//!
//! The bodies are plain records that are filled by their constructors and read back
//! field by field. Sending them is left to the client around this library.

use vstd::prelude::*;

verus! {

/// The body of the request that registers an application
///
/// Cf <https://docs.joinmastodon.org/methods/apps/#create>
#[derive(Debug)]
pub struct ApplicationBody {
    client_name: String,
    redirect_uris: String,
    scopes: Option<String>,
    website: Option<String>,
}

/// What an [`ApplicationBody`] stands for.
pub struct ApplicationBodyView {
    pub client_name: Seq<char>,
    pub redirect_uris: Seq<char>,
    pub scopes: Option<Seq<char>>,
    pub website: Option<Seq<char>>,
}

impl DeepView for ApplicationBody {
    type V = ApplicationBodyView;

    closed spec fn deep_view(&self) -> ApplicationBodyView {
        ApplicationBodyView {
            client_name: self.client_name@,
            redirect_uris: self.redirect_uris@,
            scopes: self.scopes.deep_view(),
            website: self.website.deep_view(),
        }
    }
}

impl ApplicationBody {
    /// Constructor
    pub fn new(
        client_name: String,
        redirect_uris: String,
        scopes: Option<String>,
        website: Option<String>,
    ) -> (body: Self)
        ensures
            body.deep_view() == (ApplicationBodyView {
                client_name: client_name@,
                redirect_uris: redirect_uris@,
                scopes: scopes.deep_view(),
                website: website.deep_view(),
            }),
    {
        ApplicationBody { client_name, redirect_uris, scopes, website }
    }

    /// The body for a client of that name, with neither scopes nor website.
    pub fn for_client(client_name: String, redirect_uris: String) -> (body: Self)
        ensures
            body.deep_view() == (ApplicationBodyView {
                client_name: client_name@,
                redirect_uris: redirect_uris@,
                scopes: None,
                website: None,
            }),
    {
        Self::new(client_name, redirect_uris, None, None)
    }

    /// The same body with `scopes` in place of its scopes.
    pub fn with_scopes(self, scopes: String) -> (body: Self)
        ensures
            body.deep_view() == (ApplicationBodyView {
                scopes: Some(scopes@),
                ..self.deep_view()
            }),
    {
        let mut body = self;
        body.scopes = Some(scopes);
        body
    }

    /// The same body with `website` in place of its website.
    pub fn with_website(self, website: String) -> (body: Self)
        ensures
            body.deep_view() == (ApplicationBodyView {
                website: Some(website@),
                ..self.deep_view()
            }),
    {
        let mut body = self;
        body.website = Some(website);
        body
    }

    /// The name of the application.
    pub fn client_name(&self) -> (name: &str)
        ensures
            name@ == self.deep_view().client_name,
    {
        self.client_name.as_str()
    }

    /// Where the user is sent after authorization.
    pub fn redirect_uris(&self) -> (uris: &str)
        ensures
            uris@ == self.deep_view().redirect_uris,
    {
        self.redirect_uris.as_str()
    }

    /// The scopes that are asked for, separated by spaces, if any are.
    pub fn scopes(&self) -> (scopes: &Option<String>)
        ensures
            scopes.deep_view() == self.deep_view().scopes,
    {
        &self.scopes
    }

    /// The website of the application, if it has one.
    pub fn website(&self) -> (website: &Option<String>)
        ensures
            website.deep_view() == self.deep_view().website,
    {
        &self.website
    }
}

/// The body of the request that obtains a token
///
/// Cf <https://docs.joinmastodon.org/methods/oauth/#token>
#[derive(Debug)]
pub struct TokenBody {
    grant_type: String,
    code: Option<String>,
    client_id: String,
    client_secret: String,
    redirect_uri: String,
    scope: Option<String>,
}

/// What a [`TokenBody`] stands for.
pub struct TokenBodyView {
    pub grant_type: Seq<char>,
    pub code: Option<Seq<char>>,
    pub client_id: Seq<char>,
    pub client_secret: Seq<char>,
    pub redirect_uri: Seq<char>,
    pub scope: Option<Seq<char>>,
}

impl DeepView for TokenBody {
    type V = TokenBodyView;

    closed spec fn deep_view(&self) -> TokenBodyView {
        TokenBodyView {
            grant_type: self.grant_type@,
            code: self.code.deep_view(),
            client_id: self.client_id@,
            client_secret: self.client_secret@,
            redirect_uri: self.redirect_uri@,
            scope: self.scope.deep_view(),
        }
    }
}

impl TokenBody {
    /// Constructor
    pub fn new(
        grant_type: String,
        code: Option<String>,
        client_id: String,
        client_secret: String,
        redirect_uri: String,
        scope: Option<String>,
    ) -> (body: Self)
        ensures
            body.deep_view() == (TokenBodyView {
                grant_type: grant_type@,
                code: code.deep_view(),
                client_id: client_id@,
                client_secret: client_secret@,
                redirect_uri: redirect_uri@,
                scope: scope.deep_view(),
            }),
    {
        TokenBody { grant_type, code, client_id, client_secret, redirect_uri, scope }
    }

    /// The body that exchanges an authorization code for a token: the grant type is
    /// `authorization_code`, and no scope is named.
    pub fn with_code(
        code: String,
        client_id: String,
        client_secret: String,
        redirect_uri: String,
    ) -> (body: Self)
        ensures
            body.deep_view() == (TokenBodyView {
                grant_type: "authorization_code"@,
                code: Some(code@),
                client_id: client_id@,
                client_secret: client_secret@,
                redirect_uri: redirect_uri@,
                scope: None,
            }),
    {
        Self::new(
            "authorization_code".to_owned(),
            Some(code),
            client_id,
            client_secret,
            redirect_uri,
            None,
        )
    }

    /// The same body with `scope` in place of its scope.
    pub fn with_scope(self, scope: String) -> (body: Self)
        ensures
            body.deep_view() == (TokenBodyView { scope: Some(scope@), ..self.deep_view() }),
    {
        let mut body = self;
        body.scope = Some(scope);
        body
    }

    /// The grant type.
    pub fn grant_type(&self) -> (grant_type: &str)
        ensures
            grant_type@ == self.deep_view().grant_type,
    {
        self.grant_type.as_str()
    }

    /// The authorization code, if the body holds one.
    pub fn code(&self) -> (code: &Option<String>)
        ensures
            code.deep_view() == self.deep_view().code,
    {
        &self.code
    }

    /// The client ID.
    pub fn client_id(&self) -> (client_id: &str)
        ensures
            client_id@ == self.deep_view().client_id,
    {
        self.client_id.as_str()
    }

    /// The client secret.
    pub fn client_secret(&self) -> (client_secret: &str)
        ensures
            client_secret@ == self.deep_view().client_secret,
    {
        self.client_secret.as_str()
    }

    /// Where the user was sent after authorization.
    pub fn redirect_uri(&self) -> (redirect_uri: &str)
        ensures
            redirect_uri@ == self.deep_view().redirect_uri,
    {
        self.redirect_uri.as_str()
    }

    /// The scopes that are asked for, separated by spaces, if any are.
    pub fn scope(&self) -> (scope: &Option<String>)
        ensures
            scope.deep_view() == self.deep_view().scope,
    {
        &self.scope
    }
}

} // verus!
