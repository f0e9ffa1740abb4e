use vstd::prelude::*;

use crate::sendgrid_api::{
    MailAddress, MailAddressV, MailAttachment, MailAttachmentV, MailContent, MailContentV,
    UnsubscriptionSettings, UnsubscriptionSettingsV,
};

verus! {

/// The name of the template-listing function the connector declares.
pub const LIST_TEMPLATES_FUNCTION_NAME: &'static str = "list_templates";

/// The name of the send-mail procedure the connector declares.
pub const SEND_MAIL: &'static str = "send_mail";

/// A header of a mail, as the connector's clients hand it in.
#[derive(Debug, Clone, PartialEq)]
pub struct Header {
    pub name: String,
    pub value: String,
}

/// The model of a `Header`.
pub struct HeaderV {
    pub name: Seq<char>,
    pub value: Seq<char>,
}

impl DeepView for Header {
    type V = HeaderV;

    open spec fn deep_view(&self) -> HeaderV {
        HeaderV { name: self.name.deep_view(), value: self.value.deep_view() }
    }
}

/// A substitution value, as the connector's clients hand it in.
#[derive(Debug, Clone, PartialEq)]
pub struct Substitution {
    pub tag: String,
    pub value: String,
}

/// The model of a `Substitution`.
pub struct SubstitutionV {
    pub tag: Seq<char>,
    pub value: Seq<char>,
}

impl DeepView for Substitution {
    type V = SubstitutionV;

    open spec fn deep_view(&self) -> SubstitutionV {
        SubstitutionV { tag: self.tag.deep_view(), value: self.value.deep_view() }
    }
}

/// A dynamic template variable, as the connector's clients hand it in.
#[derive(Debug, Clone, PartialEq)]
pub struct TemplateVariable {
    pub variable: String,
    pub value: String,
}

/// The model of a `TemplateVariable`.
pub struct TemplateVariableV {
    pub variable: Seq<char>,
    pub value: Seq<char>,
}

impl DeepView for TemplateVariable {
    type V = TemplateVariableV;

    open spec fn deep_view(&self) -> TemplateVariableV {
        TemplateVariableV { variable: self.variable.deep_view(), value: self.value.deep_view() }
    }
}

/// One envelope of a send-mail request, as the connector's clients hand it
/// in: headers, substitutions and template variables are lists of named
/// records.
#[derive(Debug, Clone, PartialEq)]
pub struct MailPersonalization {
    pub from: Option<MailAddress>,
    pub to: Vec<MailAddress>,
    pub cc: Option<Vec<MailAddress>>,
    pub bcc: Option<Vec<MailAddress>>,
    pub subject: Option<String>,
    pub headers: Option<Vec<Header>>,
    pub substitutions: Option<Vec<Substitution>>,
    pub dynamic_template_data: Option<Vec<TemplateVariable>>,
    pub send_at: Option<u32>,
}

/// The model of a client-shaped `MailPersonalization`.
pub struct MailPersonalizationV {
    pub from: Option<MailAddressV>,
    pub to: Seq<MailAddressV>,
    pub cc: Option<Seq<MailAddressV>>,
    pub bcc: Option<Seq<MailAddressV>>,
    pub subject: Option<Seq<char>>,
    pub headers: Option<Seq<HeaderV>>,
    pub substitutions: Option<Seq<SubstitutionV>>,
    pub dynamic_template_data: Option<Seq<TemplateVariableV>>,
    pub send_at: Option<u32>,
}

impl DeepView for MailPersonalization {
    type V = MailPersonalizationV;

    open spec fn deep_view(&self) -> MailPersonalizationV {
        MailPersonalizationV {
            from: self.from.deep_view(),
            to: self.to.deep_view(),
            cc: self.cc.deep_view(),
            bcc: self.bcc.deep_view(),
            subject: self.subject.deep_view(),
            headers: self.headers.deep_view(),
            substitutions: self.substitutions.deep_view(),
            dynamic_template_data: self.dynamic_template_data.deep_view(),
            send_at: self.send_at.deep_view(),
        }
    }
}

/// A send-mail request, as the connector's clients hand it in.
#[derive(Debug, Clone, PartialEq)]
pub struct SendMailRequest {
    pub personalizations: Vec<MailPersonalization>,
    pub from: MailAddress,
    pub reply_to_list: Vec<MailAddress>,
    pub subject: String,
    pub content: Vec<MailContent>,
    pub attachments: Option<Vec<MailAttachment>>,
    pub template_id: Option<String>,
    pub headers: Option<Vec<Header>>,
    pub send_at: Option<u32>,
    pub batch_id: Option<String>,
    pub unsubscription_settings: Option<UnsubscriptionSettings>,
}

/// The model of a client-shaped `SendMailRequest`.
pub struct SendMailRequestV {
    pub personalizations: Seq<MailPersonalizationV>,
    pub from: MailAddressV,
    pub reply_to_list: Seq<MailAddressV>,
    pub subject: Seq<char>,
    pub content: Seq<MailContentV>,
    pub attachments: Option<Seq<MailAttachmentV>>,
    pub template_id: Option<Seq<char>>,
    pub headers: Option<Seq<HeaderV>>,
    pub send_at: Option<u32>,
    pub batch_id: Option<Seq<char>>,
    pub unsubscription_settings: Option<UnsubscriptionSettingsV>,
}

impl DeepView for SendMailRequest {
    type V = SendMailRequestV;

    open spec fn deep_view(&self) -> SendMailRequestV {
        SendMailRequestV {
            personalizations: self.personalizations.deep_view(),
            from: self.from.deep_view(),
            reply_to_list: self.reply_to_list.deep_view(),
            subject: self.subject.deep_view(),
            content: self.content.deep_view(),
            attachments: self.attachments.deep_view(),
            template_id: self.template_id.deep_view(),
            headers: self.headers.deep_view(),
            send_at: self.send_at.deep_view(),
            batch_id: self.batch_id.deep_view(),
            unsubscription_settings: self.unsubscription_settings.deep_view(),
        }
    }
}

} // verus!
