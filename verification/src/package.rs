//! The record of one installable package.

use crate::fields::{
    field, field_count, has_rest, is_plain, lemma_first_len, lemma_first_three_fields,
    lemma_missing_field_is_empty, lemma_plain_text, rest, split_first, split_next, SEPARATOR,
};
use vstd::prelude::*;
use vstd::string::StringExecFns;

verus! {

/// What the package daemon reported of a package file when it was asked
/// about it.
#[derive(Debug, Clone)]
pub struct TransactionDetails {
    pub package_id: String,
    pub summary: String,
    pub description: String,
    pub url: String,
    pub license: String,
    pub size: String,
}

/// A package file on disk together with what the daemon reported of it.
///
/// `name`, `version` and `architecture` are the first three fields of `id`.
#[derive(Debug, Clone)]
pub struct Package {
    pub path: String,
    pub id: String,
    pub name: String,
    pub version: String,
    pub architecture: String,
    pub summary: String,
    pub description: String,
    pub url: String,
    pub license: String,
    pub size: String,
}

/// The texts of a `TransactionDetails`.
pub struct TransactionDetailsView {
    pub package_id: Seq<char>,
    pub summary: Seq<char>,
    pub description: Seq<char>,
    pub url: Seq<char>,
    pub license: Seq<char>,
    pub size: Seq<char>,
}

/// The texts of a `Package`.
pub struct PackageView {
    pub path: Seq<char>,
    pub id: Seq<char>,
    pub name: Seq<char>,
    pub version: Seq<char>,
    pub architecture: Seq<char>,
    pub summary: Seq<char>,
    pub description: Seq<char>,
    pub url: Seq<char>,
    pub license: Seq<char>,
    pub size: Seq<char>,
}

impl View for TransactionDetails {
    type V = TransactionDetailsView;

    open spec fn view(&self) -> TransactionDetailsView {
        TransactionDetailsView {
            package_id: self.package_id@,
            summary: self.summary@,
            description: self.description@,
            url: self.url@,
            license: self.license@,
            size: self.size@,
        }
    }
}

impl View for Package {
    type V = PackageView;

    open spec fn view(&self) -> PackageView {
        PackageView {
            path: self.path@,
            id: self.id@,
            name: self.name@,
            version: self.version@,
            architecture: self.architecture@,
            summary: self.summary@,
            description: self.description@,
            url: self.url@,
            license: self.license@,
            size: self.size@,
        }
    }
}

impl PackageView {
    /// The package at `path` of which the daemon reported `details`: the
    /// identifier's first three fields name it, the rest is taken over as
    /// it was reported.
    pub open spec fn new(path: Seq<char>, details: TransactionDetailsView) -> PackageView {
        PackageView {
            path,
            id: details.package_id,
            name: field(details.package_id, 0),
            version: field(details.package_id, 1),
            architecture: field(details.package_id, 2),
            summary: details.summary,
            description: details.description,
            url: details.url,
            license: details.license,
            size: details.size,
        }
    }

    /// Whether name, version and architecture are what the identifier says.
    pub open spec fn is_consistent(self) -> bool {
        &&& self.name == field(self.id, 0)
        &&& self.version == field(self.id, 1)
        &&& self.architecture == field(self.id, 2)
    }
}

impl Package {
    /// Builds the record of the package at `path` from what the daemon
    /// reported of it. Every identifier is accepted.
    pub fn new(path: String, tx: TransactionDetails) -> (package: Package)
        ensures
            package@ == PackageView::new(path@, tx@),
            package@.is_consistent(),
    {
        let (name, more) = split_first(tx.package_id.as_str());
        let (version, more) = split_next(more);
        let (architecture, _) = split_next(more);
        proof {
            reveal_with_fuel(field, 3);
        }
        Package {
            path,
            id: tx.package_id.clone(),
            name: String::from_str(name),
            version: String::from_str(version),
            architecture: String::from_str(architecture),
            summary: tx.summary,
            description: tx.description,
            url: tx.url,
            license: tx.license,
            size: tx.size,
        }
    }
}

/// An identifier with fewer than three fields still gives a package: the
/// fields that it lacks are empty, and an identifier without a separator
/// is the name as a whole.
pub proof fn lemma_package_of_short_identifier(path: Seq<char>, details: TransactionDetailsView)
    requires
        field_count(details.package_id) < 3,
    ensures
        PackageView::new(path, details).architecture == Seq::<char>::empty(),
        field_count(details.package_id) < 2 ==> {
            &&& PackageView::new(path, details).version == Seq::<char>::empty()
            &&& PackageView::new(path, details).name == details.package_id
            &&& is_plain(details.package_id)
        },
{
    let id = details.package_id;
    lemma_missing_field_is_empty(id, 2);
    if field_count(id) < 2 {
        assert(!has_rest(id)) by {
            if has_rest(id) {
                assert(field_count(rest(id)) >= 1);
            }
        }
        lemma_first_len(id);
        assert(id.take(id.len() as int) == id);
        lemma_plain_text(id);
    }
}

/// Of an identifier with three fields or more only the first three are
/// used: where it begins with `a;b;c` and then ends or goes on with a
/// separator, the package is named `a`, has the version `b` and the
/// architecture `c`, whatever comes after.
pub proof fn lemma_package_of_long_identifier(
    path: Seq<char>,
    details: TransactionDetailsView,
    a: Seq<char>,
    b: Seq<char>,
    c: Seq<char>,
    tail: Seq<char>,
)
    requires
        is_plain(a),
        is_plain(b),
        is_plain(c),
        tail.len() == 0 || tail[0] == SEPARATOR,
        details.package_id == a.push(SEPARATOR) + (b.push(SEPARATOR) + (c + tail)),
    ensures
        PackageView::new(path, details).name == a,
        PackageView::new(path, details).version == b,
        PackageView::new(path, details).architecture == c,
{
    lemma_first_three_fields(a, b, c, tail);
}

} // verus!
