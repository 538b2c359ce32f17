//! The options of a run, checked.

use crate::dlm_error::{DlmError, DlmErrorView};
use crate::text::{text_of, trim, trimmed};
use crate::user_agents::{UserAgent, UserAgentView};
use vstd::prelude::*;

verus! {

/// What the command line holds, option by option, as its parser found it
/// (defaults filled in).
pub struct CommandLine {
    pub max_concurrent_downloads: u32,
    pub input_file: String,
    pub output_dir: String,
    pub user_agent: Option<String>,
    pub random_user_agent: bool,
    pub proxy: Option<String>,
    pub retry: u32,
    pub connection_timeout_secs: u32,
    pub accept: Option<String>,
    pub accept_invalid_certs: bool,
}

/// The options of a run.
pub struct Arguments {
    pub input_file: String,
    pub max_concurrent_downloads: u32,
    pub output_dir: String,
    pub user_agent: Option<UserAgent>,
    pub proxy: Option<String>,
    pub retry: u32,
    pub connection_timeout_secs: u32,
    pub accept: Option<String>,
    pub accept_invalid_certs: bool,
}

/// [`Arguments`] as a mathematical value.
pub struct ArgumentsView {
    pub input_file: Seq<char>,
    pub max_concurrent_downloads: u32,
    pub output_dir: Seq<char>,
    pub user_agent: Option<UserAgentView>,
    pub proxy: Option<Seq<char>>,
    pub retry: u32,
    pub connection_timeout_secs: u32,
    pub accept: Option<Seq<char>>,
    pub accept_invalid_certs: bool,
}

impl View for Arguments {
    type V = ArgumentsView;

    open spec fn view(&self) -> ArgumentsView {
        ArgumentsView {
            input_file: self.input_file@,
            max_concurrent_downloads: self.max_concurrent_downloads,
            output_dir: self.output_dir@,
            user_agent: match self.user_agent {
                Some(ua) => Some(ua@),
                None => None,
            },
            proxy: text_of(self.proxy),
            retry: self.retry,
            connection_timeout_secs: self.connection_timeout_secs,
            accept: text_of(self.accept),
            accept_invalid_certs: self.accept_invalid_certs,
        }
    }
}

/// The user agent that the command line asks for: the one it names, else a
/// random one if it asks for that, else none.
pub open spec fn chosen_user_agent(user_agent: Option<Seq<char>>, random: bool) -> Option<UserAgentView> {
    match user_agent {
        Some(ua) => Some(UserAgentView::CustomUserAgent(ua)),
        None => if random {
            Some(UserAgentView::RandomUserAgent)
        } else {
            None
        },
    }
}

/// The options that a command line stands for, or the first reason why it is
/// refused: a concurrency limit of zero, an input file that is no file, an
/// output directory that is no directory. Both paths are taken trimmed.
pub open spec fn checked_arguments(
    command_line: CommandLine,
    input_file_is_file: bool,
    output_dir_is_dir: bool,
) -> Result<ArgumentsView, DlmErrorView> {
    if command_line.max_concurrent_downloads == 0 {
        Err(DlmErrorView::CliArgumentError { message: "'maxConcurrentDownloads' must be positive"@ })
    } else if !input_file_is_file {
        Err(DlmErrorView::CliArgumentError { message: "'inputFile' does not exist"@ })
    } else if !output_dir_is_dir {
        Err(DlmErrorView::CliArgumentError { message: "'outputDir' does not exist"@ })
    } else {
        Ok(
            ArgumentsView {
                input_file: trim(command_line.input_file@),
                max_concurrent_downloads: command_line.max_concurrent_downloads,
                output_dir: trim(command_line.output_dir@),
                user_agent: chosen_user_agent(
                    text_of(command_line.user_agent),
                    command_line.random_user_agent,
                ),
                proxy: text_of(command_line.proxy),
                retry: command_line.retry,
                connection_timeout_secs: command_line.connection_timeout_secs,
                accept: text_of(command_line.accept),
                accept_invalid_certs: command_line.accept_invalid_certs,
            },
        )
    }
}

/// Checks the options found on the command line.
///
/// `input_file_is_file` and `output_dir_is_dir` say what the file system
/// holds at the two paths, each taken trimmed.
pub fn get_args(command_line: CommandLine, input_file_is_file: bool, output_dir_is_dir: bool) -> (r: Result<
    Arguments,
    DlmError,
>)
    ensures
        match r {
            Ok(args) => checked_arguments(command_line, input_file_is_file, output_dir_is_dir) == Ok::<
                ArgumentsView,
                DlmErrorView,
            >(args@),
            Err(e) => checked_arguments(command_line, input_file_is_file, output_dir_is_dir) == Err::<
                ArgumentsView,
                DlmErrorView,
            >(e@),
        },
{
    if command_line.max_concurrent_downloads == 0 {
        return Err(
            DlmError::CliArgumentError { message: "'maxConcurrentDownloads' must be positive".to_owned() },
        );
    }
    let input_file = trimmed(command_line.input_file.as_str());
    if !input_file_is_file {
        return Err(DlmError::CliArgumentError { message: "'inputFile' does not exist".to_owned() });
    }
    let output_dir = trimmed(command_line.output_dir.as_str());
    if !output_dir_is_dir {
        return Err(DlmError::CliArgumentError { message: "'outputDir' does not exist".to_owned() });
    }
    let user_agent = match command_line.user_agent {
        Some(ua) => Some(UserAgent::CustomUserAgent(ua)),
        None => if command_line.random_user_agent {
            Some(UserAgent::RandomUserAgent)
        } else {
            None
        },
    };
    Ok(
        Arguments {
            input_file,
            max_concurrent_downloads: command_line.max_concurrent_downloads,
            output_dir,
            user_agent,
            proxy: command_line.proxy,
            retry: command_line.retry,
            connection_timeout_secs: command_line.connection_timeout_secs,
            accept: command_line.accept,
            accept_invalid_certs: command_line.accept_invalid_certs,
        },
    )
}

} // verus!
