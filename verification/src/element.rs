//! A lightweight handle binding an element reference to the commands
//! that work on it.

use vstd::prelude::*;
use crate::connection::{
    MarionetteConnection, Request, cmd_name, envelope_bytes,
};
use crate::messages::{ElementRef, QueryMethod, ser_element_op, ser_find_query};

verus! {

/// A helper around one [`ElementRef`]: each method is the command that
/// reads or queries the element, built on the given connection.
#[derive(Debug, PartialEq)]
pub struct Element {
    pub id: ElementRef,
}

impl Element {
    pub fn new(element: &ElementRef) -> (r: Element)
        ensures
            r.id.reference == element.reference,
    {
        Element { id: ElementRef { reference: element.reference.clone() } }
    }

    /// Ask for an attribute of this element.
    pub fn attr(&self, conn: &mut MarionetteConnection, name: &str) -> (r: Request)
        requires
            old(conn).spec_msgid() < u64::MAX,
        ensures
            *final(conn) == old(conn).spec_bump(),
            r.msgid == old(conn).spec_msgid(),
            r.body@ == envelope_bytes(
                old(conn).spec_msgid(),
                cmd_name(
                    "getElementAttribute"@,
                    "WebDriver:GetElementAttribute"@,
                    old(conn).spec_compat(),
                ),
                ser_element_op(self.id.reference@, Some(name@)),
            ),
    {
        conn.get_element_attribute(&self.id, name)
    }

    /// Ask for a property of this element.
    pub fn property(&self, conn: &mut MarionetteConnection, name: &str) -> (r: Request)
        requires
            old(conn).spec_msgid() < u64::MAX,
        ensures
            *final(conn) == old(conn).spec_bump(),
            r.msgid == old(conn).spec_msgid(),
            r.body@ == envelope_bytes(
                old(conn).spec_msgid(),
                cmd_name(
                    "getElementProperty"@,
                    "WebDriver:GetElementProperty"@,
                    old(conn).spec_compat(),
                ),
                ser_element_op(self.id.reference@, Some(name@)),
            ),
    {
        conn.get_element_property(&self.id, name)
    }

    /// Ask for the visible text of this element.
    pub fn text(&self, conn: &mut MarionetteConnection) -> (r: Request)
        requires
            old(conn).spec_msgid() < u64::MAX,
        ensures
            *final(conn) == old(conn).spec_bump(),
            r.msgid == old(conn).spec_msgid(),
            r.body@ == envelope_bytes(
                old(conn).spec_msgid(),
                cmd_name(
                    "getElementText"@,
                    "WebDriver:GetElementText"@,
                    old(conn).spec_compat(),
                ),
                ser_element_op(self.id.reference@, None),
            ),
    {
        conn.get_element_text(&self.id)
    }

    /// Query for elements inside this element.
    pub fn find_elements(
        &self,
        conn: &mut MarionetteConnection,
        method: QueryMethod,
        target: &str,
    ) -> (r: Request)
        requires
            old(conn).spec_msgid() < u64::MAX,
        ensures
            *final(conn) == old(conn).spec_bump(),
            r.msgid == old(conn).spec_msgid(),
            r.body@ == envelope_bytes(
                old(conn).spec_msgid(),
                cmd_name("findElements"@, "WebDriver:FindElements"@, old(conn).spec_compat()),
                ser_find_query(target@, method, Some(self.id.reference@)),
            ),
    {
        conn.find_elements(method, target, Some(&self.id))
    }
}

} // verus!
