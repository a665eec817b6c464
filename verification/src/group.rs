//! Settings for creating a group space, assembled through a staged
//! builder with defaults.

use vstd::prelude::*;

use crate::content::clone_opt_string;

verus! {

/// Whether a created room is publicly visible.
#[derive(Clone, Copy, Debug, PartialEq, Eq, Structural)]
pub enum Visibility {
    Public,
    Private,
}

/// The settings a group is created with.
#[derive(Debug)]
pub struct CreateGroupSettings {
    pub name: Option<String>,
    pub visibility: Visibility,
    pub invites: Vec<String>,
    pub alias: Option<String>,
}

/// A staged builder for group settings: name and alias must be supplied,
/// visibility defaults to private and the invite list to empty.
#[derive(Debug)]
pub struct CreateGroupSettingsBuilder {
    pub name: Option<String>,
    pub visibility: Option<Visibility>,
    pub invites: Option<Vec<String>>,
    pub alias: Option<String>,
}

impl CreateGroupSettingsBuilder {
    pub fn new() -> (r: CreateGroupSettingsBuilder)
        ensures
            r.name is None,
            r.visibility is None,
            r.invites is None,
            r.alias is None,
    {
        CreateGroupSettingsBuilder { name: None, visibility: None, invites: None, alias: None }
    }

    pub fn name(&mut self, name: String)
        ensures
            *final(self) == (CreateGroupSettingsBuilder { name: Some(name), ..*old(self) }),
    {
        self.name = Some(name);
    }

    pub fn visibility(&mut self, visibility: Visibility)
        ensures
            *final(self) == (CreateGroupSettingsBuilder {
                visibility: Some(visibility),
                ..*old(self)
            }),
    {
        self.visibility = Some(visibility);
    }

    pub fn invites(&mut self, invites: Vec<String>)
        ensures
            *final(self) == (CreateGroupSettingsBuilder { invites: Some(invites), ..*old(self) }),
    {
        self.invites = Some(invites);
    }

    pub fn alias(&mut self, alias: String)
        ensures
            *final(self) == (CreateGroupSettingsBuilder { alias: Some(alias), ..*old(self) }),
    {
        self.alias = Some(alias);
    }

    /// Builds the settings; fails exactly when name or alias was not
    /// supplied. Unset visibility defaults to private, an unset invite
    /// list to empty.
    pub fn build(self) -> (r: Result<CreateGroupSettings, ()>)
        ensures
            r is Ok <==> (self.name is Some && self.alias is Some),
            (match r {
                Ok(s) => {
                    &&& Some(s.name) == Some(self.name)
                    &&& s.name == self.name
                    &&& s.alias == self.alias
                    &&& s.visibility == (match self.visibility {
                        Some(v) => v,
                        None => Visibility::Private,
                    })
                    &&& (match self.invites {
                        Some(inv) => s.invites@ == inv@,
                        None => s.invites@ == Seq::<String>::empty(),
                    })
                },
                Err(()) => true,
            }),
    {
        if self.name.is_some() && self.alias.is_some() {
            let visibility = match self.visibility {
                Some(v) => v,
                None => Visibility::Private,
            };
            let invites = match self.invites {
                Some(inv) => inv,
                None => Vec::new(),
            };
            Ok(CreateGroupSettings { name: self.name, visibility, invites, alias: self.alias })
        } else {
            Err(())
        }
    }
}

impl CreateGroupSettings {
    pub fn name(&self) -> (r: Option<String>)
        ensures
            r == self.name,
    {
        clone_opt_string(&self.name)
    }

    pub fn visibility(&self) -> (r: Visibility)
        ensures
            r == self.visibility,
    {
        self.visibility
    }

    pub fn alias(&self) -> (r: Option<String>)
        ensures
            r == self.alias,
    {
        clone_opt_string(&self.alias)
    }
}

} // verus!
