//! The errors of the library, and their messages.
use vstd::prelude::*;

use crate::react_extension::InputError;
use crate::sanitize::PathError;
use crate::template::TemplateError;

verus! {

/// Why a new file cannot be planned.
#[derive(Clone, Copy, Debug, PartialEq, Eq, Structural)]
pub enum NewFileError {
    Input(InputError),
    Path(PathError),
    Template(TemplateError),
}

/// Why a new file cannot be written where it was planned.
#[derive(Clone, Copy, Debug, PartialEq, Eq, Structural)]
pub enum CollisionError {
    /// A file exists at that very path.
    AlreadyExists,
    /// A file with the same stem and another extension exists beside it.
    DifferentExtension,
}

/// An error of a command, with the message shown to the user.
#[derive(Clone, Debug)]
pub struct CommandError {
    pub message: String,
}

/// An error of a text helper, with its message.
#[derive(Clone, Debug)]
pub struct StrHelperError {
    message: String,
}

fn text(s: &str) -> (r: String)
    ensures
        r@ == s@,
{
    String::from_str(s)
}

impl CommandError {
    /// The command given is not one of the tool's.
    pub fn unknown_command(issued_command: Option<&str>) -> (r: CommandError)
        ensures
            r.message@ == match issued_command {
                Some(c) => "Unknown command "@ + c@ + ". Use 'next-butler help' to see what you can do"@,
                None => "Unknown command. Use 'next-butler help' to see what you can do"@,
            },
    {
        match issued_command {
            Some(command_name) => {
                let mut message = text("Unknown command ");
                message.append(command_name);
                message.append(". Use 'next-butler help' to see what you can do");
                CommandError { message }
            },
            None => CommandError {
                message: text("Unknown command. Use 'next-butler help' to see what you can do"),
            },
        }
    }

    pub fn wrong_location() -> (r: CommandError)
        ensures
            r.message@ == "Can't run next-butler from outside of a next project's root folder"@,
    {
        CommandError {
            message: text("Can't run next-butler from outside of a next project's root folder"),
        }
    }

    pub fn invalid_file_type() -> (r: CommandError)
        ensures
            r.message@ == "Invalid file type. Use 'next-butler new --help' to see which are valid"@,
    {
        CommandError {
            message: text("Invalid file type. Use 'next-butler new --help' to see which are valid"),
        }
    }

    pub fn message(&self) -> (r: String)
        ensures
            r@ == self.message@,
    {
        self.message.clone()
    }
}

impl StrHelperError {
    pub closed spec fn spec_message(&self) -> Seq<char> {
        self.message@
    }

    pub fn new(message: String) -> (r: StrHelperError)
        ensures
            r.spec_message() == message@,
    {
        StrHelperError { message }
    }

    pub fn message(&self) -> (r: String)
        ensures
            r@ == self.spec_message(),
    {
        self.message.clone()
    }
}

impl NewFileError {
    pub open spec fn spec_message(self) -> Seq<char> {
        match self {
            NewFileError::Input(InputError::ConflictingExtensionFlags) => "Conflicting extension flags: set at most one of them"@,
            NewFileError::Input(InputError::ConflictingRouterFlags) => "Conflicting router flags: set at most one of them"@,
            NewFileError::Path(PathError::NoName) => "Must specify a name"@,
            NewFileError::Path(PathError::InvalidChar(c)) => "Invalid character in the path: "@ + seq![c],
            NewFileError::Path(PathError::MissingDestination) => "Couldn't find destination folder"@,
            NewFileError::Template(TemplateError::NotFound) => "Couldn't find the provided template"@,
            NewFileError::Template(TemplateError::Ambiguous) => "Found multiple templates with the same name. Please specify the extension"@,
            NewFileError::Template(TemplateError::Render) => "Couldn't render the template"@,
        }
    }

    /// The message shown to the user.
    pub fn message(&self) -> (r: String)
        ensures
            r@ == self.spec_message(),
    {
        match self {
            NewFileError::Input(InputError::ConflictingExtensionFlags) => text(
                "Conflicting extension flags: set at most one of them",
            ),
            NewFileError::Input(InputError::ConflictingRouterFlags) => text(
                "Conflicting router flags: set at most one of them",
            ),
            NewFileError::Path(PathError::NoName) => text("Must specify a name"),
            NewFileError::Path(PathError::InvalidChar(c)) => {
                let mut m = text("Invalid character in the path: ");
                m.append(char_text(*c).as_str());
                m
            },
            NewFileError::Path(PathError::MissingDestination) => text(
                "Couldn't find destination folder",
            ),
            NewFileError::Template(TemplateError::NotFound) => text(
                "Couldn't find the provided template",
            ),
            NewFileError::Template(TemplateError::Ambiguous) => text(
                "Found multiple templates with the same name. Please specify the extension",
            ),
            NewFileError::Template(TemplateError::Render) => text(
                "Couldn't render the template",
            ),
        }
    }
}

impl CollisionError {
    pub open spec fn spec_message(self) -> Seq<char> {
        match self {
            CollisionError::AlreadyExists => "The file already exists"@,
            CollisionError::DifferentExtension => "The file already exists but with a different extension"@,
        }
    }

    /// The message shown to the user.
    pub fn message(&self) -> (r: String)
        ensures
            r@ == self.spec_message(),
    {
        match self {
            CollisionError::AlreadyExists => text("The file already exists"),
            CollisionError::DifferentExtension => text(
                "The file already exists but with a different extension",
            ),
        }
    }
}

/// Relies on std's `char::to_string`: the text of the one character.
#[verifier::external_body]
fn char_text(c: char) -> (r: String)
    ensures
        r@ == seq![c],
{
    c.to_string()
}

} // verus!
