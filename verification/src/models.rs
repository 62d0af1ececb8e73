//! The entities of the college directory and their mathematical views.
//!
//! Every entity that carries text has a view in which each `String` is the
//! sequence of its characters. Contracts throughout the crate are stated over
//! these views.

use vstd::prelude::*;

verus! {

/// The characters of an optional text, `None` standing for SQL `NULL`.
pub open spec fn opt_text(value: Option<String>) -> Option<Seq<char>> {
    match value {
        Some(text) => Some(text@),
        None => None,
    }
}

/// The characters of an optional borrowed text.
pub open spec fn opt_str(value: Option<&str>) -> Option<Seq<char>> {
    match value {
        Some(text) => Some(text@),
        None => None,
    }
}

/// Borrows an optional text.
pub fn as_text(value: &Option<String>) -> (text: Option<&str>)
    ensures
        opt_str(text) == opt_text(*value),
{
    match value {
        Some(text) => Some(text.as_str()),
        None => None,
    }
}

/// Copies an optional text.
pub fn copy_opt_text(value: &Option<String>) -> (copy: Option<String>)
    ensures
        opt_text(copy) == opt_text(*value),
{
    match value {
        Some(text) => Some(text.clone()),
        None => None,
    }
}

/// The natural key of a college: the triple that no two colleges share.
pub struct NaturalKey {
    pub name: Seq<char>,
    pub district: Seq<char>,
    pub city: Seq<char>,
}

/// A college as stored. `id` is generated by the store and never changes;
/// (`name`, `district`, `city`) is the natural key.
#[derive(Clone, Debug, PartialEq, Eq)]
pub struct College {
    pub id: i32,
    pub name: String,
    pub category: String,
    pub district: String,
    pub city: String,
    pub college_type: String,
    pub autonomous: Option<bool>,
    pub minority: Option<bool>,
    pub hostel_available: Option<bool>,
    pub established_year: Option<i32>,
}

/// A [`College`] with its texts as sequences of characters.
pub struct CollegeView {
    pub id: i32,
    pub name: Seq<char>,
    pub category: Seq<char>,
    pub district: Seq<char>,
    pub city: Seq<char>,
    pub college_type: Seq<char>,
    pub autonomous: Option<bool>,
    pub minority: Option<bool>,
    pub hostel_available: Option<bool>,
    pub established_year: Option<i32>,
}

impl CollegeView {
    /// The natural key of the college.
    pub open spec fn key(self) -> NaturalKey {
        NaturalKey { name: self.name, district: self.district, city: self.city }
    }
}

impl View for College {
    type V = CollegeView;

    open spec fn view(&self) -> CollegeView {
        CollegeView {
            id: self.id,
            name: self.name@,
            category: self.category@,
            district: self.district@,
            city: self.city@,
            college_type: self.college_type@,
            autonomous: self.autonomous,
            minority: self.minority,
            hostel_available: self.hostel_available,
            established_year: self.established_year,
        }
    }
}

/// The contact row of a college: at most one per college, every detail optional.
#[derive(Clone, Debug, PartialEq, Eq)]
pub struct ContactInfo {
    pub id: i32,
    pub college_id: i32,
    pub phone: Option<String>,
    pub email: Option<String>,
    pub address: Option<String>,
    pub website: Option<String>,
    pub pincode: Option<String>,
}

/// The five optional contact details, without the row's identity.
pub struct ContactDetails {
    pub phone: Option<Seq<char>>,
    pub email: Option<Seq<char>>,
    pub website: Option<Seq<char>>,
    pub address: Option<Seq<char>>,
    pub pincode: Option<Seq<char>>,
}

impl ContactDetails {
    /// No detail at all: what a college without a contact row shows.
    pub open spec fn none() -> ContactDetails {
        ContactDetails { phone: None, email: None, website: None, address: None, pincode: None }
    }

    /// Whether at least one detail is present.
    pub open spec fn any(self) -> bool {
        self.phone is Some || self.email is Some || self.website is Some || self.address is Some
            || self.pincode is Some
    }

    /// Whether every detail that `other` has is present here too, whatever
    /// its value.
    pub open spec fn covers(self, other: ContactDetails) -> bool {
        &&& other.phone is Some ==> self.phone is Some
        &&& other.email is Some ==> self.email is Some
        &&& other.website is Some ==> self.website is Some
        &&& other.address is Some ==> self.address is Some
        &&& other.pincode is Some ==> self.pincode is Some
    }

    /// Coalesce-merge: a detail of `incoming` wins where it is present,
    /// the stored detail stays where it is absent.
    pub open spec fn merged_with(self, incoming: ContactDetails) -> ContactDetails {
        ContactDetails {
            phone: coalesce(incoming.phone, self.phone),
            email: coalesce(incoming.email, self.email),
            website: coalesce(incoming.website, self.website),
            address: coalesce(incoming.address, self.address),
            pincode: coalesce(incoming.pincode, self.pincode),
        }
    }
}

/// The first of the two values that is present.
pub open spec fn coalesce(incoming: Option<Seq<char>>, stored: Option<Seq<char>>) -> Option<
    Seq<char>,
> {
    if incoming is Some {
        incoming
    } else {
        stored
    }
}

/// A [`ContactInfo`]: the row's identity and its details.
pub struct ContactInfoView {
    pub id: i32,
    pub college_id: i32,
    pub details: ContactDetails,
}

impl View for ContactInfo {
    type V = ContactInfoView;

    open spec fn view(&self) -> ContactInfoView {
        ContactInfoView {
            id: self.id,
            college_id: self.college_id,
            details: ContactDetails {
                phone: opt_text(self.phone),
                email: opt_text(self.email),
                website: opt_text(self.website),
                address: opt_text(self.address),
                pincode: opt_text(self.pincode),
            },
        }
    }
}

/// A college joined with its contact row, if it has one. Never stored.
#[derive(Clone, Debug, PartialEq, Eq)]
pub struct CollegeWithContact {
    pub id: i32,
    pub name: String,
    pub category: String,
    pub district: String,
    pub city: String,
    pub college_type: String,
    pub autonomous: Option<bool>,
    pub minority: Option<bool>,
    pub hostel_available: Option<bool>,
    pub established_year: Option<i32>,
    pub phone: Option<String>,
    pub email: Option<String>,
    pub website: Option<String>,
    pub address: Option<String>,
    pub pincode: Option<String>,
}

/// A [`CollegeWithContact`]: the college and its contact details.
pub struct CollegeWithContactView {
    pub college: CollegeView,
    pub details: ContactDetails,
}

impl View for CollegeWithContact {
    type V = CollegeWithContactView;

    open spec fn view(&self) -> CollegeWithContactView {
        CollegeWithContactView {
            college: CollegeView {
                id: self.id,
                name: self.name@,
                category: self.category@,
                district: self.district@,
                city: self.city@,
                college_type: self.college_type@,
                autonomous: self.autonomous,
                minority: self.minority,
                hostel_available: self.hostel_available,
                established_year: self.established_year,
            },
            details: ContactDetails {
                phone: opt_text(self.phone),
                email: opt_text(self.email),
                website: opt_text(self.website),
                address: opt_text(self.address),
                pincode: opt_text(self.pincode),
            },
        }
    }
}

/// A college with the details of its contact row; with no detail where it
/// has no contact row.
pub open spec fn joined(college: CollegeView, contact: Option<ContactInfoView>)
    -> CollegeWithContactView {
    CollegeWithContactView {
        college,
        details: match contact {
            Some(row) => row.details,
            None => ContactDetails::none(),
        },
    }
}

/// The views of contact rows.
pub open spec fn contact_views(contacts: Seq<ContactInfo>) -> Seq<ContactInfoView> {
    contacts.map_values(|contact: ContactInfo| contact@)
}

/// The contact row of a college among the contact rows: the first that
/// refers to the college. Where each college has at most one contact row,
/// it is the only one.
pub open spec fn contact_of(contacts: Seq<ContactInfoView>, college_id: i32) -> Option<
    ContactInfoView,
>
    decreases contacts.len(),
{
    if contacts.len() == 0 {
        None
    } else if contacts[0].college_id == college_id {
        Some(contacts[0])
    } else {
        contact_of(contacts.drop_first(), college_id)
    }
}

impl CollegeWithContact {
    /// One college with its contact row, if it has one.
    pub fn with_contact(college: &College, contact: Option<&ContactInfo>) -> (row:
        CollegeWithContact)
        ensures
            row@ == joined(
                college@,
                match contact {
                    Some(c) => Some(c@),
                    None => None,
                },
            ),
    {
        let (phone, email, website, address, pincode) = match contact {
            Some(c) => (
                copy_opt_text(&c.phone),
                copy_opt_text(&c.email),
                copy_opt_text(&c.website),
                copy_opt_text(&c.address),
                copy_opt_text(&c.pincode),
            ),
            None => (None, None, None, None, None),
        };
        CollegeWithContact {
            id: college.id,
            name: college.name.clone(),
            category: college.category.clone(),
            district: college.district.clone(),
            city: college.city.clone(),
            college_type: college.college_type.clone(),
            autonomous: college.autonomous,
            minority: college.minority,
            hostel_available: college.hostel_available,
            established_year: college.established_year,
            phone,
            email,
            website,
            address,
            pincode,
        }
    }

    /// Left outer join of one college with the contact rows, on the
    /// college's id: the college appears whether or not a contact row refers
    /// to it, with absent details where none does.
    pub fn join(college: &College, contacts: &Vec<ContactInfo>) -> (row: CollegeWithContact)
        ensures
            row@ == joined(college@, contact_of(contact_views(contacts@), college.id)),
    {
        let ghost views = contact_views(contacts@);
        let mut i: usize = 0;
        assert(views.skip(0) =~= views);
        while i < contacts.len()
            invariant
                i <= contacts.len(),
                views == contact_views(contacts@),
                contact_of(views, college.id) == contact_of(views.skip(i as int), college.id),
            decreases contacts.len() - i,
        {
            assert(views.skip(i as int).drop_first() =~= views.skip(i + 1));
            if contacts[i].college_id == college.id {
                return CollegeWithContact::with_contact(college, Some(&contacts[i]));
            }
            i = i + 1;
        }
        CollegeWithContact::with_contact(college, None)
    }
}

/// What an applicant of one category has to bring and do. Read only.
#[derive(Clone, Debug, PartialEq, Eq)]
pub struct AdmissionRequirement {
    pub id: i32,
    pub category: String,
    pub documents_required: Option<Vec<String>>,
    pub eligibility_criteria: Option<String>,
    pub application_process: Option<String>,
}

} // verus!
