//! What the contact section displays: the contact details with the addresses
//! that their links point at.

use vstd::prelude::*;
use vstd::string::*;
use crate::content::{
    get_contact_content, resolved, ContactContent, ContactModel, Content, SocialNetwork,
    SocialNetworkModel,
};
use crate::text::{dialable, join, strip_grouping};

verus! {

/// What the section is given: the code of the language to display.
#[derive(Clone, Debug, PartialEq, Eq)]
pub struct Props {
    pub language: String,
}

/// A social network as displayed: a link with an icon.
#[derive(Clone, Debug, PartialEq, Eq)]
pub struct SocialLink {
    /// The text of the link.
    pub name: String,
    /// Where the link points.
    pub url: String,
    /// The style classes of the icon.
    pub icon_class: String,
}

pub struct SocialLinkModel {
    pub name: Seq<char>,
    pub url: Seq<char>,
    pub icon_class: Seq<char>,
}

impl DeepView for SocialLink {
    type V = SocialLinkModel;

    open spec fn deep_view(&self) -> SocialLinkModel {
        SocialLinkModel { name: self.name@, url: self.url@, icon_class: self.icon_class@ }
    }
}

/// The contact section as displayed.
#[derive(Clone, Debug, PartialEq, Eq)]
pub struct ContactView {
    pub title: String,
    pub phone_label: String,
    /// The phone number as written for reading.
    pub phone: String,
    /// The address that dials the phone number.
    pub phone_href: String,
    pub email_label: String,
    pub email: String,
    /// The address that writes to the email.
    pub email_href: String,
    pub social_title: String,
    pub social_networks: Vec<SocialLink>,
}

pub struct ContactViewModel {
    pub title: Seq<char>,
    pub phone_label: Seq<char>,
    pub phone: Seq<char>,
    pub phone_href: Seq<char>,
    pub email_label: Seq<char>,
    pub email: Seq<char>,
    pub email_href: Seq<char>,
    pub social_title: Seq<char>,
    pub social_networks: Seq<SocialLinkModel>,
}

impl DeepView for ContactView {
    type V = ContactViewModel;

    open spec fn deep_view(&self) -> ContactViewModel {
        ContactViewModel {
            title: self.title@,
            phone_label: self.phone_label@,
            phone: self.phone@,
            phone_href: self.phone_href@,
            email_label: self.email_label@,
            email: self.email@,
            email_href: self.email_href@,
            social_title: self.social_title@,
            social_networks: self.social_networks.deep_view(),
        }
    }
}

/// The address that dials a phone number: the scheme `tel:` and the number
/// without the spaces, brackets and hyphens that group its digits.
pub open spec fn phone_href_of(phone: Seq<char>) -> Seq<char> {
    "tel:"@ + dialable(phone)
}

/// The address that writes to an email: the scheme `mailto:` and the email as
/// it is.
pub open spec fn email_href_of(email: Seq<char>) -> Seq<char> {
    "mailto:"@ + email
}

/// The style classes of a network's icon: the name of the icon in the icon set,
/// then the size and the colour.
pub open spec fn icon_class_of(icon: Seq<char>) -> Seq<char> {
    icon + " text-5xl text-green-300"@
}

/// A social network as displayed.
pub open spec fn social_link_of(network: SocialNetworkModel) -> SocialLinkModel {
    SocialLinkModel {
        name: network.name,
        url: network.url,
        icon_class: icon_class_of(network.icon),
    }
}

/// The contact section as displayed: the content as it is, with the two
/// addresses and a link for each social network, in the order of the content.
pub open spec fn contact_view_of(contact: ContactModel) -> ContactViewModel {
    ContactViewModel {
        title: contact.title,
        phone_label: contact.phone_label,
        phone: contact.phone,
        phone_href: phone_href_of(contact.phone),
        email_label: contact.email_label,
        email: contact.email,
        email_href: email_href_of(contact.email),
        social_title: contact.social_title,
        social_networks: Seq::new(
            contact.social_networks.len(),
            |i: int| social_link_of(contact.social_networks[i]),
        ),
    }
}

/// The address that dials `phone`.
pub fn phone_href(phone: &str) -> (r: String)
    ensures
        r@ == phone_href_of(phone@),
{
    let number = strip_grouping(phone);
    join("tel:", number.as_str())
}

/// The address that writes to `email`.
pub fn email_href(email: &str) -> (r: String)
    ensures
        r@ == email_href_of(email@),
{
    join("mailto:", email)
}

/// The style classes of the icon named `icon`.
pub fn icon_class(icon: &str) -> (r: String)
    ensures
        r@ == icon_class_of(icon@),
{
    join(icon, " text-5xl text-green-300")
}

/// Lays out one social network.
pub fn social_link(network: &SocialNetwork) -> (r: SocialLink)
    ensures
        r.deep_view() == social_link_of(network.deep_view()),
{
    SocialLink {
        name: network.name.clone(),
        url: network.url.clone(),
        icon_class: icon_class(network.icon.as_str()),
    }
}

/// Lays out a contact section.
pub fn contact_view(contact: &ContactContent) -> (r: ContactView)
    ensures
        r.deep_view() == contact_view_of(contact.deep_view()),
{
    let mut networks: Vec<SocialLink> = Vec::new();
    let mut i: usize = 0;
    while i < contact.social_networks.len()
        invariant
            i <= contact.social_networks.len(),
            networks.len() == i,
            forall|j: int|
                0 <= j < i ==> (#[trigger] networks@[j]).deep_view() == social_link_of(
                    contact.social_networks@[j].deep_view(),
                ),
        decreases contact.social_networks.len() - i,
    {
        networks.push(social_link(&contact.social_networks[i]));
        i += 1;
    }
    assert(networks.deep_view() =~= contact_view_of(contact.deep_view()).social_networks);
    ContactView {
        title: contact.title.clone(),
        phone_label: contact.phone_label.clone(),
        phone: contact.phone.clone(),
        phone_href: phone_href(contact.phone.as_str()),
        email_label: contact.email_label.clone(),
        email: contact.email.clone(),
        email_href: email_href(contact.email.as_str()),
        social_title: contact.social_title.clone(),
        social_networks: networks,
    }
}

/// What the contact section displays for the language of `props`.
pub fn contact_section(props: &Props, content: &Content) -> (r: ContactView)
    ensures
        r.deep_view() == contact_view_of(resolved(*content, props.language@).contact.deep_view()),
{
    contact_view(get_contact_content(content, props.language.as_str()))
}

} // verus!
