//! Widget configuration documents: what the remote document store hands the
//! producers. The fetch itself is network work done by the surrounding
//! application; this module holds the document types and the lookup logic.

use vstd::prelude::*;
use crate::entry::ArrivalMessage;
use crate::text::str_eq;

verus! {

/// The header every widget document carries: its declared name.
#[derive(Debug)]
pub struct Widget {
    pub name: String,
}

impl Clone for Widget {
    fn clone(&self) -> (r: Self)
        ensures
            r == *self,
    {
        Widget { name: self.name.clone() }
    }
}

/// One service alert.
#[derive(Debug)]
pub struct Alert {
    pub message: String,
}

impl View for Alert {
    type V = Seq<char>;

    open spec fn view(&self) -> Seq<char> {
        self.message@
    }
}

impl DeepView for Alert {
    type V = Seq<char>;

    open spec fn deep_view(&self) -> Seq<char> {
        self.view()
    }
}

impl Clone for Alert {
    fn clone(&self) -> (r: Self)
        ensures
            r == *self,
    {
        Alert { message: self.message.clone() }
    }
}

/// The alert widget's configuration: its name and the current alert list.
#[derive(Debug)]
pub struct AlertWidget {
    pub name: String,
    pub alerts: Vec<Alert>,
}

impl AlertWidget {
    /// The alert texts, in the configured order.
    pub fn get_messages(&self) -> (r: Vec<String>)
        ensures
            r.deep_view() == self.alerts.deep_view(),
    {
        let mut r: Vec<String> = Vec::new();
        let mut i: usize = 0;
        while i < self.alerts.len()
            invariant
                i <= self.alerts.len(),
                r.deep_view() == self.alerts.deep_view().subrange(0, i as int),
            decreases self.alerts.len() - i,
        {
            let m = self.alerts[i].message.clone();
            let ghost pre = r.deep_view();
            r.push(m);
            proof {
                assert(r.deep_view() =~= pre.push(self.alerts.deep_view()[i as int]));
                assert(pre.push(self.alerts.deep_view()[i as int]) =~= self.alerts.deep_view()
                    .subrange(0, i + 1 as int));
            }
            i = i + 1;
        }
        proof {
            assert(self.alerts.deep_view().subrange(0, self.alerts.deep_view().len() as int)
                =~= self.alerts.deep_view());
        }
        r
    }
}

/// The arrival widget's configuration: its name, the station to poll, and
/// the operator's custom messages.
#[derive(Debug)]
pub struct ArrivalWidget {
    pub name: String,
    pub station_id: String,
    pub messages: Option<Vec<ArrivalMessage>>,
}

/// The first widget document whose declared name matches the wanted one:
/// `Some(i)` exactly when a match exists, and then `i` is the first match.
pub fn find_widget_index(widgets: &Vec<Widget>, wanted: &str) -> (r: Option<usize>)
    ensures
        r matches Some(i) ==> 0 <= i < widgets@.len() && widgets@[i as int].name@ == wanted@
            && (forall|j: int| 0 <= j < i ==> widgets@[j].name@ != wanted@),
        r is None ==> forall|j: int| 0 <= j < widgets@.len() ==> widgets@[j].name@ != wanted@,
{
    let mut i: usize = 0;
    while i < widgets.len()
        invariant
            i <= widgets.len(),
            forall|j: int| 0 <= j < i ==> widgets@[j].name@ != wanted@,
        decreases widgets.len() - i,
    {
        if str_eq(widgets[i].name.as_str(), wanted) {
            return Some(i);
        }
        i = i + 1;
    }
    None
}

} // verus!
