use vstd::prelude::*;
use vstd::string::StringExecFns;

verus! {

/// An API key for the mail-delivery service. Never blank.
#[derive(Debug, Clone, PartialEq)]
pub struct SendGridApiKey(String);

/// Why an API key was rejected.
#[derive(Debug, PartialEq)]
pub enum ApiKeyError {
    CannotBeBlank,
}

impl View for SendGridApiKey {
    type V = Seq<char>;

    closed spec fn view(&self) -> Seq<char> {
        self.0@
    }
}

impl SendGridApiKey {
    /// Accepts any non-empty key, and only those.
    pub fn new(api_key: &str) -> (r: Result<Self, ApiKeyError>)
        ensures
            api_key@.len() == 0 ==> r == Err::<SendGridApiKey, ApiKeyError>(
                ApiKeyError::CannotBeBlank,
            ),
            api_key@.len() > 0 ==> (r matches Ok(k) && k@ == api_key@),
    {
        if api_key.is_empty() {
            Err(ApiKeyError::CannotBeBlank)
        } else {
            Ok(SendGridApiKey(api_key.to_owned()))
        }
    }

    /// The key itself.
    pub fn as_str(&self) -> (r: &str)
        ensures
            r@ == self@,
    {
        self.0.as_str()
    }
}

/// The decimal digit for one value below ten.
pub open spec fn dec_digit(d: int) -> char {
    if d == 0 {
        '0'
    } else if d == 1 {
        '1'
    } else if d == 2 {
        '2'
    } else if d == 3 {
        '3'
    } else if d == 4 {
        '4'
    } else if d == 5 {
        '5'
    } else if d == 6 {
        '6'
    } else if d == 7 {
        '7'
    } else if d == 8 {
        '8'
    } else {
        '9'
    }
}

/// The decimal rendering of a non-negative integer, without leading zeros.
pub open spec fn spec_dec_string(n: int) -> Seq<char>
    decreases n,
{
    if n < 10 {
        seq![dec_digit(n)]
    } else {
        spec_dec_string(n / 10).push(dec_digit(n % 10))
    }
}

/// One decimal digit as text.
fn digit_str(d: u32) -> (r: &'static str)
    requires
        d < 10,
    ensures
        r@ == seq![dec_digit(d as int)],
{
    proof {
        reveal_strlit("0");
        reveal_strlit("1");
        reveal_strlit("2");
        reveal_strlit("3");
        reveal_strlit("4");
        reveal_strlit("5");
        reveal_strlit("6");
        reveal_strlit("7");
        reveal_strlit("8");
        reveal_strlit("9");
        assert("0"@ =~= seq!['0']);
        assert("1"@ =~= seq!['1']);
        assert("2"@ =~= seq!['2']);
        assert("3"@ =~= seq!['3']);
        assert("4"@ =~= seq!['4']);
        assert("5"@ =~= seq!['5']);
        assert("6"@ =~= seq!['6']);
        assert("7"@ =~= seq!['7']);
        assert("8"@ =~= seq!['8']);
        assert("9"@ =~= seq!['9']);
    }
    if d == 0 {
        "0"
    } else if d == 1 {
        "1"
    } else if d == 2 {
        "2"
    } else if d == 3 {
        "3"
    } else if d == 4 {
        "4"
    } else if d == 5 {
        "5"
    } else if d == 6 {
        "6"
    } else if d == 7 {
        "7"
    } else if d == 8 {
        "8"
    } else {
        "9"
    }
}

/// Renders a number in decimal.
pub fn u32_to_decimal_string(n: u32) -> (r: String)
    ensures
        r@ == spec_dec_string(n as int),
    decreases n,
{
    if n < 10 {
        digit_str(n).to_owned()
    } else {
        let prefix = u32_to_decimal_string(n / 10);
        let r = prefix.concat(digit_str(n % 10));
        proof {
            assert(spec_dec_string(n as int) =~= spec_dec_string(n as int / 10).push(
                dec_digit(n as int % 10),
            ));
            assert(r@ =~= spec_dec_string(n as int / 10).push(dec_digit(n as int % 10)));
        }
        r
    }
}

/// The parameters of a template-listing call.
#[derive(Debug, Clone, PartialEq)]
pub struct ListTransactionalTemplatesParams {
    pub generations: Option<String>,
    pub page_size: u32,
    pub page_token: Option<String>,
}

/// The model of `ListTransactionalTemplatesParams`.
pub struct ListTransactionalTemplatesParamsV {
    pub generations: Option<Seq<char>>,
    pub page_size: u32,
    pub page_token: Option<Seq<char>>,
}

impl View for ListTransactionalTemplatesParams {
    type V = ListTransactionalTemplatesParamsV;

    open spec fn view(&self) -> ListTransactionalTemplatesParamsV {
        ListTransactionalTemplatesParamsV {
            generations: match &self.generations {
                Some(g) => Some(g@),
                None => None,
            },
            page_size: self.page_size,
            page_token: match &self.page_token {
                Some(t) => Some(t@),
                None => None,
            },
        }
    }
}

/// The model of a list of query-string pairs.
pub open spec fn string_pairs_view(pairs: Seq<(String, String)>) -> Seq<(Seq<char>, Seq<char>)> {
    Seq::new(pairs.len(), |i: int| (pairs[i].0@, pairs[i].1@))
}

/// The query-string pairs the parameters stand for: `generations` when set,
/// then `page_size` in decimal, then `page_token` when set.
pub open spec fn spec_query_params(p: ListTransactionalTemplatesParamsV) -> Seq<
    (Seq<char>, Seq<char>),
> {
    (match p.generations {
        Some(g) => seq![("generations"@, g)],
        None => Seq::empty(),
    }) + seq![("page_size"@, spec_dec_string(p.page_size as int))] + (match p.page_token {
        Some(t) => seq![("page_token"@, t)],
        None => Seq::empty(),
    })
}

impl ListTransactionalTemplatesParams {
    /// The query-string pairs to send with a template-listing call.
    pub fn to_query_params(&self) -> (r: Vec<(String, String)>)
        ensures
            string_pairs_view(r@) == spec_query_params(self@),
    {
        let mut params: Vec<(String, String)> = Vec::new();
        match &self.generations {
            Some(gen) => params.push(("generations".to_owned(), gen.clone())),
            None => (),
        }
        params.push(("page_size".to_owned(), u32_to_decimal_string(self.page_size)));
        match &self.page_token {
            Some(page_token) => params.push(("page_token".to_owned(), page_token.clone())),
            None => (),
        }
        proof {
            assert(string_pairs_view(params@) =~= spec_query_params(self@));
        }
        params
    }
}

/// The body of a successful template-listing response.
#[derive(Debug, Clone, PartialEq)]
pub struct ListTransactionalTemplatesResponse {
    pub result: Vec<TransactionalTemplate>,
}

/// One transactional template of the mail-delivery service.
#[derive(Debug, Clone, PartialEq)]
pub struct TransactionalTemplate {
    pub id: String,
    pub name: String,
    pub generation: String,
    pub updated_at: String,
    pub versions: Vec<TransactionTemplateVersion>,
}

/// One version of a transactional template.
#[derive(Debug, Clone, PartialEq)]
pub struct TransactionTemplateVersion {
    pub id: String,
    pub template_id: String,
    pub active: u32,
    pub name: String,
    pub subject: Option<String>,
    pub updated_at: String,
    pub generate_plain_content: bool,
    pub editor: String,
    pub thumbnail_url: String,
}

/// The body of an error response of the mail-delivery service.
#[derive(Debug, Clone, PartialEq)]
pub struct ErrorResponse {
    pub errors: Option<Vec<ErrorItem>>,
}

/// One error of an error response.
#[derive(Debug, Clone, PartialEq)]
pub struct ErrorItem {
    pub message: String,
    pub error_id: String,
}

/// The model of an `ErrorItem`.
pub struct ErrorItemV {
    pub message: Seq<char>,
    pub error_id: Seq<char>,
}

impl View for ErrorItem {
    type V = ErrorItemV;

    open spec fn view(&self) -> ErrorItemV {
        ErrorItemV { message: self.message@, error_id: self.error_id@ }
    }
}

/// The model of a list of error items.
pub open spec fn error_items_view(items: Seq<ErrorItem>) -> Seq<ErrorItemV> {
    Seq::new(items.len(), |i: int| items[i]@)
}

/// The text of one error item: its identifier, then its message.
pub open spec fn spec_error_item_message(e: ErrorItemV) -> Seq<char> {
    e.error_id + ": "@ + e.message
}

/// Error item texts joined with commas.
pub open spec fn spec_error_items_joined(items: Seq<ErrorItemV>) -> Seq<char>
    decreases items.len(),
{
    if items.len() == 0 {
        Seq::empty()
    } else if items.len() == 1 {
        spec_error_item_message(items[0])
    } else {
        spec_error_items_joined(items.drop_last()) + ", "@ + spec_error_item_message(items.last())
    }
}

/// The text of a whole error response.
pub open spec fn spec_error_response_message(errors: Option<Seq<ErrorItemV>>) -> Seq<char> {
    match errors {
        None => "Errors: "@ + "[]"@,
        Some(items) => "Errors: "@ + "["@ + spec_error_items_joined(items) + "]"@,
    }
}

impl ErrorItem {
    /// The item as text.
    pub fn message_string(&self) -> (r: String)
        ensures
            r@ == spec_error_item_message(self@),
    {
        self.error_id.clone().concat(": ").concat(self.message.as_str())
    }
}

impl ErrorResponse {
    /// The response as text, every item listed in order.
    pub fn message_string(&self) -> (r: String)
        ensures
            r@ == spec_error_response_message(
                match &self.errors {
                    Some(items) => Some(error_items_view(items@)),
                    None => None,
                },
            ),
    {
        match &self.errors {
            None => {
                let r = "Errors: ".to_owned().concat("[]");
                r
            },
            Some(errs) => {
                let ghost itemsv = error_items_view(errs@);
                let mut s = "Errors: ".to_owned().concat("[");
                let mut i: usize = 0;
                while i < errs.len()
                    invariant
                        i <= errs@.len(),
                        itemsv == error_items_view(errs@),
                        itemsv.len() == errs@.len(),
                        s@ == "Errors: "@ + "["@ + spec_error_items_joined(
                            itemsv.take(i as int),
                        ),
                    decreases errs@.len() - i,
                {
                    if i > 0 {
                        s = s.concat(", ");
                    }
                    let m = errs[i].message_string();
                    s = s.concat(m.as_str());
                    proof {
                        assert(itemsv.take(i as int + 1).drop_last() =~= itemsv.take(i as int));
                        assert(itemsv.take(i as int + 1).last() == itemsv[i as int]);
                        assert(itemsv[i as int] == errs@[i as int]@);
                        if i == 0 {
                            assert(spec_error_items_joined(itemsv.take(1))
                                == spec_error_item_message(itemsv[0]));
                            assert(s@ == "Errors: "@ + "["@ + spec_error_items_joined(
                                itemsv.take(1),
                            ));
                        }
                    }
                    i += 1;
                }
                proof {
                    assert(itemsv.take(errs@.len() as int) =~= itemsv);
                }
                let r = s.concat("]");
                r
            },
        }
    }
}

/// How a call of the mail-delivery service can fail: a structured error
/// body, an unexpected HTTP status (carried as its numeric code), or
/// anything else, as text.
#[derive(Debug, Clone, PartialEq)]
pub enum RequestError<E> {
    ApiError { error: E },
    UnexpectedStatusCode { status_code: u16 },
    OtherError { error: String },
}

/// A request to send one mail, in the wire shape of the mail-delivery
/// service. Header, substitution and template-variable maps are carried as
/// ordered name/value pairs.
#[derive(Debug, Clone, PartialEq)]
pub struct SendMailRequest {
    pub personalizations: Vec<MailPersonalization>,
    pub from: MailAddress,
    pub reply_to_list: Vec<MailAddress>,
    pub subject: String,
    pub content: Vec<MailContent>,
    pub attachments: Option<Vec<MailAttachment>>,
    pub template_id: Option<String>,
    pub headers: Option<Vec<(String, String)>>,
    pub send_at: Option<u32>,
    pub batch_id: Option<String>,
    pub unsubscription_settings: Option<UnsubscriptionSettings>,
}

/// One envelope of a send-mail request: who receives the message and how it
/// is handled.
#[derive(Debug, Clone, PartialEq)]
pub struct MailPersonalization {
    pub from: Option<MailAddress>,
    pub to: Vec<MailAddress>,
    pub cc: Option<Vec<MailAddress>>,
    pub bcc: Option<Vec<MailAddress>>,
    pub subject: Option<String>,
    pub headers: Option<Vec<(String, String)>>,
    pub substitutions: Option<Vec<(String, String)>>,
    pub dynamic_template_data: Option<Vec<(String, String)>>,
    pub send_at: Option<u32>,
}

/// An email address, with an optional display name.
#[derive(Debug, Clone, PartialEq)]
pub struct MailAddress {
    pub email: String,
    pub name: Option<String>,
}

/// Mail content of one MIME type.
#[derive(Debug, Clone, PartialEq)]
pub struct MailContent {
    pub mime_type: String,
    pub value: String,
}

/// One attachment of a mail.
#[derive(Debug, Clone, PartialEq)]
pub struct MailAttachment {
    pub content: String,
    pub mime_type: Option<String>,
    pub filename: String,
    pub disposition: Option<String>,
    pub content_id: Option<String>,
}

/// How unsubscribes are handled for a mail.
#[derive(Debug, Clone, PartialEq)]
pub struct UnsubscriptionSettings {
    pub group_id: String,
    pub groups_to_display: Option<Vec<String>>,
}

/// The model of a `MailAddress`.
pub struct MailAddressV {
    pub email: Seq<char>,
    pub name: Option<Seq<char>>,
}

impl DeepView for MailAddress {
    type V = MailAddressV;

    open spec fn deep_view(&self) -> MailAddressV {
        MailAddressV { email: self.email.deep_view(), name: self.name.deep_view() }
    }
}

/// The model of a `MailContent`.
pub struct MailContentV {
    pub mime_type: Seq<char>,
    pub value: Seq<char>,
}

impl DeepView for MailContent {
    type V = MailContentV;

    open spec fn deep_view(&self) -> MailContentV {
        MailContentV { mime_type: self.mime_type.deep_view(), value: self.value.deep_view() }
    }
}

/// The model of a `MailAttachment`.
pub struct MailAttachmentV {
    pub content: Seq<char>,
    pub mime_type: Option<Seq<char>>,
    pub filename: Seq<char>,
    pub disposition: Option<Seq<char>>,
    pub content_id: Option<Seq<char>>,
}

impl DeepView for MailAttachment {
    type V = MailAttachmentV;

    open spec fn deep_view(&self) -> MailAttachmentV {
        MailAttachmentV {
            content: self.content.deep_view(),
            mime_type: self.mime_type.deep_view(),
            filename: self.filename.deep_view(),
            disposition: self.disposition.deep_view(),
            content_id: self.content_id.deep_view(),
        }
    }
}

/// The model of an `UnsubscriptionSettings`.
pub struct UnsubscriptionSettingsV {
    pub group_id: Seq<char>,
    pub groups_to_display: Option<Seq<Seq<char>>>,
}

impl DeepView for UnsubscriptionSettings {
    type V = UnsubscriptionSettingsV;

    open spec fn deep_view(&self) -> UnsubscriptionSettingsV {
        UnsubscriptionSettingsV {
            group_id: self.group_id.deep_view(),
            groups_to_display: self.groups_to_display.deep_view(),
        }
    }
}

/// The model of a wire-shaped `MailPersonalization`.
pub struct MailPersonalizationV {
    pub from: Option<MailAddressV>,
    pub to: Seq<MailAddressV>,
    pub cc: Option<Seq<MailAddressV>>,
    pub bcc: Option<Seq<MailAddressV>>,
    pub subject: Option<Seq<char>>,
    pub headers: Option<Seq<(Seq<char>, Seq<char>)>>,
    pub substitutions: Option<Seq<(Seq<char>, Seq<char>)>>,
    pub dynamic_template_data: Option<Seq<(Seq<char>, Seq<char>)>>,
    pub send_at: Option<u32>,
}

impl DeepView for MailPersonalization {
    type V = MailPersonalizationV;

    open spec fn deep_view(&self) -> MailPersonalizationV {
        MailPersonalizationV {
            from: self.from.deep_view(),
            to: self.to.deep_view(),
            cc: self.cc.deep_view(),
            bcc: self.bcc.deep_view(),
            subject: self.subject.deep_view(),
            headers: self.headers.deep_view(),
            substitutions: self.substitutions.deep_view(),
            dynamic_template_data: self.dynamic_template_data.deep_view(),
            send_at: self.send_at.deep_view(),
        }
    }
}

/// The model of a wire-shaped `SendMailRequest`.
pub struct SendMailRequestV {
    pub personalizations: Seq<MailPersonalizationV>,
    pub from: MailAddressV,
    pub reply_to_list: Seq<MailAddressV>,
    pub subject: Seq<char>,
    pub content: Seq<MailContentV>,
    pub attachments: Option<Seq<MailAttachmentV>>,
    pub template_id: Option<Seq<char>>,
    pub headers: Option<Seq<(Seq<char>, Seq<char>)>>,
    pub send_at: Option<u32>,
    pub batch_id: Option<Seq<char>>,
    pub unsubscription_settings: Option<UnsubscriptionSettingsV>,
}

impl DeepView for SendMailRequest {
    type V = SendMailRequestV;

    open spec fn deep_view(&self) -> SendMailRequestV {
        SendMailRequestV {
            personalizations: self.personalizations.deep_view(),
            from: self.from.deep_view(),
            reply_to_list: self.reply_to_list.deep_view(),
            subject: self.subject.deep_view(),
            content: self.content.deep_view(),
            attachments: self.attachments.deep_view(),
            template_id: self.template_id.deep_view(),
            headers: self.headers.deep_view(),
            send_at: self.send_at.deep_view(),
            batch_id: self.batch_id.deep_view(),
            unsubscription_settings: self.unsubscription_settings.deep_view(),
        }
    }
}

/// The model of a `TransactionTemplateVersion`.
pub struct TransactionTemplateVersionV {
    pub id: Seq<char>,
    pub template_id: Seq<char>,
    pub active: u32,
    pub name: Seq<char>,
    pub subject: Option<Seq<char>>,
    pub updated_at: Seq<char>,
    pub generate_plain_content: bool,
    pub editor: Seq<char>,
    pub thumbnail_url: Seq<char>,
}

impl DeepView for TransactionTemplateVersion {
    type V = TransactionTemplateVersionV;

    open spec fn deep_view(&self) -> TransactionTemplateVersionV {
        TransactionTemplateVersionV {
            id: self.id.deep_view(),
            template_id: self.template_id.deep_view(),
            active: self.active.deep_view(),
            name: self.name.deep_view(),
            subject: self.subject.deep_view(),
            updated_at: self.updated_at.deep_view(),
            generate_plain_content: self.generate_plain_content.deep_view(),
            editor: self.editor.deep_view(),
            thumbnail_url: self.thumbnail_url.deep_view(),
        }
    }
}

/// The model of a `TransactionalTemplate`.
pub struct TransactionalTemplateV {
    pub id: Seq<char>,
    pub name: Seq<char>,
    pub generation: Seq<char>,
    pub updated_at: Seq<char>,
    pub versions: Seq<TransactionTemplateVersionV>,
}

impl DeepView for TransactionalTemplate {
    type V = TransactionalTemplateV;

    open spec fn deep_view(&self) -> TransactionalTemplateV {
        TransactionalTemplateV {
            id: self.id.deep_view(),
            name: self.name.deep_view(),
            generation: self.generation.deep_view(),
            updated_at: self.updated_at.deep_view(),
            versions: self.versions.deep_view(),
        }
    }
}

} // verus!
