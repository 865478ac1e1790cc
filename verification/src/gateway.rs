//! The gateway that a profile's configuration names, and where its quota can be asked for.
use crate::json::{parse_json, string_at};
use crate::text::{non_blank, trim, CharClass};
use vstd::prelude::*;

verus! {

#[verifier::external_type_specification]
#[verifier::external_body]
pub struct ExDocument(toml_edit::DocumentMut);

/// The strings in a TOML document, each under the keys that lead to it through standard tables.
pub uninterp spec fn document_strings(document: toml_edit::DocumentMut) -> Map<
    Seq<Seq<char>>,
    Seq<char>,
>;

/// The strings of the TOML document that a text writes down; `None` where the text is no TOML
/// document.
pub uninterp spec fn parsed_toml(text: Seq<char>) -> Option<Map<Seq<Seq<char>>, Seq<char>>>;

/// `DocumentMut`'s `from_str`: what the document holds is decided by the text alone.
#[verifier::external_body]
fn parse_document(text: &str) -> (document: Option<toml_edit::DocumentMut>)
    ensures
        parsed_toml(text@) == match document {
            Some(d) => Some(document_strings(d)),
            None => None,
        },
{
    text.parse::<toml_edit::DocumentMut>().ok()
}

/// `Table::get` on the root table and `Item::as_str`: the string under a key.
#[verifier::external_body]
fn root_string(document: &toml_edit::DocumentMut, key: &str) -> (text: Option<String>)
    ensures
        text.deep_view() == document_strings(*document).get(seq![key@]),
{
    document.get(key)?.as_str().map(str::to_string)
}

/// `Table::get` and `Item::as_table`, twice, then `Table::get` and `Item::as_str`: the string
/// under a key of a table in a table.
#[verifier::external_body]
fn nested_string(
    document: &toml_edit::DocumentMut,
    table: &str,
    row: &str,
    key: &str,
) -> (text: Option<String>)
    ensures
        text.deep_view() == document_strings(*document).get(seq![table@, row@, key@]),
{
    document.get(table)?.as_table()?.get(row)?.as_table()?.get(key)?.as_str().map(str::to_string)
}

/// The gateway that a profile talks to.
#[derive(Debug)]
pub struct ProfileGatewayConfig {
    pub base_url: String,
    pub api_key: String,
    pub provider_name: String,
}

/// A gateway, with its texts as sequences of characters.
pub struct GatewayTexts {
    pub base_url: Seq<char>,
    pub api_key: Seq<char>,
    pub provider_name: Seq<char>,
}

impl View for ProfileGatewayConfig {
    type V = GatewayTexts;

    open spec fn view(&self) -> GatewayTexts {
        GatewayTexts {
            base_url: self.base_url@,
            api_key: self.api_key@,
            provider_name: self.provider_name@,
        }
    }
}

/// What a profile's configuration says of its provider, as it stands there.
pub struct ProviderEntry {
    pub base_url: Option<String>,
    pub bearer_token: Option<String>,
    pub api_key: Option<String>,
    pub name: Option<String>,
}

/// An entry, with its texts as sequences of characters.
pub struct ProviderTexts {
    pub base_url: Option<Seq<char>>,
    pub bearer_token: Option<Seq<char>>,
    pub api_key: Option<Seq<char>>,
    pub name: Option<Seq<char>>,
}

impl View for ProviderEntry {
    type V = ProviderTexts;

    open spec fn view(&self) -> ProviderTexts {
        ProviderTexts {
            base_url: self.base_url.deep_view(),
            bearer_token: self.bearer_token.deep_view(),
            api_key: self.api_key.deep_view(),
            name: self.name.deep_view(),
        }
    }
}

/// The key in the configuration: the bearer token where there is one, else the API key; a blank
/// one does not count.
pub open spec fn configured_key(entry: ProviderTexts) -> Option<Seq<char>> {
    crate::text::non_blank_text(
        match entry.bearer_token {
            Some(token) => Some(token),
            None => entry.api_key,
        },
    )
}

/// The gateway that an entry describes: it needs a base URL, and a key in the entry or in the
/// profile's credentials; a provider without a name goes by its id.
pub open spec fn gateway_of(
    provider_id: Seq<char>,
    entry: ProviderTexts,
    credential: Option<Seq<char>>,
) -> Option<GatewayTexts> {
    let key = match configured_key(entry) {
        Some(key) => Some(key),
        None => crate::text::non_blank_text(credential),
    };
    match (entry.base_url, key) {
        (Some(base_url), Some(api_key)) => Some(
            GatewayTexts {
                base_url: crate::text::trimmed(base_url, CharClass::Space),
                api_key,
                provider_name: crate::text::trimmed(
                    match entry.name {
                        Some(name) => name,
                        None => provider_id,
                    },
                    CharClass::Space,
                ),
            },
        ),
        _ => None,
    }
}

/// The gateway that the entry of the provider `provider_id` describes. `credential` is the key in
/// the profile's credentials, and counts where the entry has none.
pub fn gateway_from_entry(
    provider_id: &str,
    entry: ProviderEntry,
    credential: Option<String>,
) -> (gateway: Option<ProfileGatewayConfig>)
    ensures
        (match gateway {
            Some(g) => Some(g@),
            None => None,
        }) == gateway_of(provider_id@, entry@, credential.deep_view()),
{
    let base_url = match &entry.base_url {
        Some(text) => trim(text.as_str(), CharClass::Space).to_owned(),
        None => {
            return None;
        },
    };
    let configured = match &entry.bearer_token {
        Some(token) => non_blank(Some(token.as_str())),
        None => match &entry.api_key {
            Some(key) => non_blank(Some(key.as_str())),
            None => None,
        },
    };
    let key = match configured {
        Some(key) => Some(key),
        None => match &credential {
            Some(text) => non_blank(Some(text.as_str())),
            None => None,
        },
    };
    match key {
        Some(api_key) => {
            let provider_name = match &entry.name {
                Some(name) => trim(name.as_str(), CharClass::Space).to_owned(),
                None => trim(provider_id, CharClass::Space).to_owned(),
            };
            Some(ProfileGatewayConfig { base_url, api_key, provider_name })
        },
        None => None,
    }
}

/// The entry of a provider among the strings of a configuration.
pub open spec fn provider_entry(
    strings: Map<Seq<Seq<char>>, Seq<char>>,
    provider_id: Seq<char>,
) -> ProviderTexts {
    ProviderTexts {
        base_url: strings.get(seq!["model_providers"@, provider_id, "base_url"@]),
        bearer_token: strings.get(
            seq!["model_providers"@, provider_id, "experimental_bearer_token"@],
        ),
        api_key: strings.get(seq!["model_providers"@, provider_id, "api_key"@]),
        name: strings.get(seq!["model_providers"@, provider_id, "name"@]),
    }
}

/// The key in a profile's credentials.
pub open spec fn credential_key(auth_text: Option<Seq<char>>) -> Option<Seq<char>> {
    match auth_text {
        Some(text) => match crate::json::parsed_json(text) {
            Some((strings, _)) => strings.get("/OPENAI_API_KEY"@),
            None => None,
        },
        None => None,
    }
}

/// The gateway that a profile's configuration and credentials describe.
pub open spec fn configured_gateway(
    config_text: Seq<char>,
    auth_text: Option<Seq<char>>,
) -> Option<GatewayTexts> {
    match parsed_toml(config_text) {
        Some(strings) => match strings.get(seq!["model_provider"@]) {
            Some(id) => {
                let provider_id = crate::text::trimmed(id, CharClass::Space);
                gateway_of(
                    provider_id,
                    provider_entry(strings, provider_id),
                    credential_key(auth_text),
                )
            },
            None => None,
        },
        None => None,
    }
}

fn read_credential(auth_text: Option<&str>) -> (key: Option<String>)
    ensures
        key.deep_view() == credential_key(auth_text.deep_view()),
{
    match auth_text {
        Some(text) => match parse_json(text) {
            Some(value) => string_at(&value, "/OPENAI_API_KEY"),
            None => None,
        },
        None => None,
    }
}

/// The gateway that a profile is configured for: `config_text` is the text of its configuration,
/// `auth_text` that of its credentials, where they can be read.
pub fn read_profile_gateway_config(
    config_text: &str,
    auth_text: Option<&str>,
) -> (gateway: Option<ProfileGatewayConfig>)
    ensures
        (match gateway {
            Some(g) => Some(g@),
            None => None,
        }) == configured_gateway(config_text@, auth_text.deep_view()),
{
    match parse_document(config_text) {
        Some(document) => match root_string(&document, "model_provider") {
            Some(id) => {
                let provider_id = trim(id.as_str(), CharClass::Space);
                let entry = ProviderEntry {
                    base_url: nested_string(&document, "model_providers", provider_id, "base_url"),
                    bearer_token: nested_string(
                        &document,
                        "model_providers",
                        provider_id,
                        "experimental_bearer_token",
                    ),
                    api_key: nested_string(&document, "model_providers", provider_id, "api_key"),
                    name: nested_string(&document, "model_providers", provider_id, "name"),
                };
                gateway_from_entry(provider_id, entry, read_credential(auth_text))
            },
            None => None,
        },
        None => None,
    }
}

/// A key in the provider's entry settles the gateway: the profile's credentials are not looked at.
pub proof fn law_entry_key_comes_first(
    provider_id: Seq<char>,
    entry: ProviderTexts,
    first: Option<Seq<char>>,
    second: Option<Seq<char>>,
)
    requires
        configured_key(entry) is Some,
    ensures
        gateway_of(provider_id, entry, first) == gateway_of(provider_id, entry, second),
{
}

/// A gateway is never without a key.
pub proof fn law_gateway_has_a_key(
    provider_id: Seq<char>,
    entry: ProviderTexts,
    credential: Option<Seq<char>>,
)
    ensures
        gateway_of(provider_id, entry, credential) matches Some(g) ==> g.api_key.len() > 0,
{
}

/// An entry describes a gateway exactly where it has a base URL, and a key of its own or one in
/// the credentials that is not blank. Without its own name the provider goes by its id.
pub proof fn law_entry_describes_a_gateway(
    provider_id: Seq<char>,
    entry: ProviderTexts,
    credential: Option<Seq<char>>,
)
    ensures
        ({
            let gateway = gateway_of(provider_id, entry, credential);
            let own = if entry.bearer_token is Some {
                entry.bearer_token
            } else {
                entry.api_key
            };
            let own_key = crate::text::non_blank_text(own);
            let other_key = crate::text::non_blank_text(credential);
            &&& gateway is Some <==> entry.base_url is Some && (own_key is Some || other_key
                is Some)
            &&& gateway matches Some(g) ==> {
                &&& g.base_url == crate::text::trimmed(entry.base_url->0, CharClass::Space)
                &&& own_key is Some ==> g.api_key == own_key->0
                &&& own_key is None ==> g.api_key == other_key->0
                &&& entry.name matches Some(name) ==> g.provider_name == crate::text::trimmed(
                    name,
                    CharClass::Space,
                )
                &&& entry.name is None ==> g.provider_name == crate::text::trimmed(
                    provider_id,
                    CharClass::Space,
                )
            }
        }),
{
}

/// The entry of a provider stands in the table of the providers under its id, and its fields
/// under their own keys.
pub proof fn law_entry_is_read_from_its_table(
    strings: Map<Seq<Seq<char>>, Seq<char>>,
    id: Seq<char>,
)
    ensures
        ({
            let entry = provider_entry(strings, id);
            let providers = "model_providers"@;
            &&& entry.base_url == strings.get(seq![providers, id, "base_url"@])
            &&& entry.bearer_token == strings.get(
                seq![providers, id, "experimental_bearer_token"@],
            )
            &&& entry.api_key == strings.get(seq![providers, id, "api_key"@])
            &&& entry.name == strings.get(seq![providers, id, "name"@])
        }),
{
}

/// The gateway of a profile is that of the provider that its configuration chooses, with the key
/// of its credentials where the provider has none. There is none where the configuration cannot be
/// read or chooses no provider.
pub proof fn law_profile_gateway_is_the_chosen_one(
    config_text: Seq<char>,
    auth_text: Seq<char>,
    strings: Map<Seq<Seq<char>>, Seq<char>>,
    auth: Option<Seq<char>>,
)
    ensures
        parsed_toml(config_text) is None ==> configured_gateway(config_text, auth) is None,
        parsed_toml(config_text) == Some(strings) ==> {
            &&& !strings.contains_key(seq!["model_provider"@]) ==> configured_gateway(
                config_text,
                auth,
            ) is None
            &&& strings.contains_key(seq!["model_provider"@]) ==> {
                let id = crate::text::trimmed(strings[seq!["model_provider"@]], CharClass::Space);
                let entry = provider_entry(strings, id);
                &&& configured_gateway(config_text, None) == gateway_of(id, entry, None)
                &&& crate::json::parsed_json(auth_text) is None ==> configured_gateway(
                    config_text,
                    Some(auth_text),
                ) == gateway_of(id, entry, None)
                &&& crate::json::parsed_json(auth_text) matches Some((found, _))
                    ==> configured_gateway(config_text, Some(auth_text)) == gateway_of(
                    id,
                    entry,
                    found.get("/OPENAI_API_KEY"@),
                )
            }
        },
{
}

/// A gateway and an entry mean what they hold, text by text.
pub proof fn law_gateways_mean_what_they_hold(gateway: ProfileGatewayConfig, entry: ProviderEntry)
    ensures
        gateway@.base_url == gateway.base_url@,
        gateway@.api_key == gateway.api_key@,
        gateway@.provider_name == gateway.provider_name@,
        entry@.base_url == entry.base_url.deep_view(),
        entry@.bearer_token == entry.bearer_token.deep_view(),
        entry@.api_key == entry.api_key.deep_view(),
        entry@.name == entry.name.deep_view(),
{
}

} // verus!
