//! The blob store's command-line client: which command to run, and what its
//! answer means. Running the command is left to the caller.

use crate::text::{
    starts_with, strip_prefix, text_of, trim_start_matches, trimmed_start, without_prefix,
};
use vstd::prelude::*;
use vstd::string::StringExecFns;

verus! {

/// What the client prints after an upload.
#[derive(Debug)]
pub struct WalrusUploadResponse {
    pub blob_id: Option<String>,
    pub error: Option<String>,
}

/// What the client prints after a download.
#[derive(Debug)]
pub struct WalrusDownloadResponse {
    pub success: Option<bool>,
    pub output: Option<String>,
    pub size: Option<usize>,
    pub error: Option<String>,
}

/// Where the client's runtime and script are found.
pub struct WalrusCli {
    pub deno_path: String,
    pub cli_script: String,
}

/// A command for the caller to run: a program, the directory to run it in,
/// and its arguments.
pub struct WalrusCommand {
    pub program: String,
    pub working_dir: String,
    pub arguments: Vec<String>,
}

/// The path of `file_path` relative to the repository: a leading `/app/`,
/// or else a leading `/`, is dropped, and of what is left a leading `app/`
/// before `data/`.
pub open spec fn normalized_path(file_path: Seq<char>) -> Seq<char> {
    let stripped = if "/app/"@.is_prefix_of(file_path) {
        without_prefix(file_path, "/app/"@.len())
    } else if "/"@.is_prefix_of(file_path) {
        without_prefix(file_path, "/"@.len())
    } else {
        file_path
    };
    if "data/"@.is_prefix_of(stripped) {
        stripped
    } else if "app/data/"@.is_prefix_of(stripped) {
        trimmed_start(stripped, "app/"@)
    } else {
        stripped
    }
}

/// The argument that names a file to the client, which runs one directory
/// below the repository's root.
pub open spec fn client_path(file_path: Seq<char>) -> Seq<char> {
    "../"@ + normalized_path(file_path)
}

/// The permissions that every run of the client is given.
pub open spec fn run_arguments(cli_script: Seq<char>) -> Seq<Seq<char>> {
    seq![
        "run"@,
        "--allow-net"@,
        "--allow-read"@,
        "--allow-env"@,
        "--allow-write"@,
        "--allow-sys"@,
        cli_script,
    ]
}

/// The arguments of an upload of `file_path`.
pub open spec fn upload_arguments(cli_script: Seq<char>, file_path: Seq<char>) -> Seq<Seq<char>> {
    run_arguments(cli_script) + seq!["upload"@, client_path(file_path)]
}

/// The arguments of a download of `blob_id` to `output_path`.
pub open spec fn download_arguments(
    cli_script: Seq<char>,
    blob_id: Seq<char>,
    output_path: Seq<char>,
) -> Seq<Seq<char>> {
    run_arguments(cli_script) + seq!["download"@, blob_id, client_path(output_path)]
}

/// What an upload's answer means: the blob's id, unless the client reported
/// an error or gave no id.
pub open spec fn upload_outcome(blob_id: Option<Seq<char>>, error: Option<Seq<char>>) -> Result<
    Seq<char>,
    Seq<char>,
> {
    match error {
        Some(reason) => Err("Walrus upload failed: "@ + reason),
        None => match blob_id {
            Some(id) => Ok(id),
            None => Err("No blob ID in response"@),
        },
    }
}

/// What a download's answer means: the number of bytes written, unless the
/// client reported an error or did not report success.
pub open spec fn download_outcome(
    success: Option<bool>,
    size: Option<usize>,
    error: Option<Seq<char>>,
) -> Result<usize, Seq<char>> {
    match error {
        Some(reason) => Err("Walrus download failed: "@ + reason),
        None => if success == Some(true) {
            Ok(
                match size {
                    Some(bytes) => bytes,
                    None => 0,
                },
            )
        } else {
            Err("Download failed"@)
        },
    }
}

/// Where the encrypted copy of a file is kept while it travels: beside the
/// file, under its name with `.enc` added.
pub open spec fn encrypted_path_of(path: Seq<char>) -> Seq<char> {
    path + ".enc"@
}

/// Where a download is written inside the container: what the caller names
/// `/data/...` is mounted at `/app/data/...`.
pub open spec fn internal_path(output_path: Seq<char>) -> Seq<char> {
    if "/data/"@.is_prefix_of(output_path) {
        "/app"@ + output_path
    } else {
        output_path
    }
}

impl WalrusUploadResponse {
    /// The blob's id, or the reason why there is none.
    pub fn into_result(self) -> (outcome: Result<String, String>)
        ensures
            match outcome {
                Ok(id) => upload_outcome(text_of(self.blob_id), text_of(self.error)) == Ok::<
                    Seq<char>,
                    Seq<char>,
                >(id@),
                Err(reason) => upload_outcome(text_of(self.blob_id), text_of(self.error)) == Err::<
                    Seq<char>,
                    Seq<char>,
                >(reason@),
            },
    {
        match self.error {
            Some(reason) => Err(String::from_str("Walrus upload failed: ").concat(reason.as_str())),
            None => match self.blob_id {
                Some(id) => Ok(id),
                None => Err(String::from_str("No blob ID in response")),
            },
        }
    }
}

impl WalrusDownloadResponse {
    /// The number of bytes written, or the reason why the download failed.
    pub fn into_result(self) -> (outcome: Result<usize, String>)
        ensures
            match outcome {
                Ok(bytes) => download_outcome(self.success, self.size, text_of(self.error)) == Ok::<
                    usize,
                    Seq<char>,
                >(bytes),
                Err(reason) => download_outcome(self.success, self.size, text_of(self.error))
                    == Err::<usize, Seq<char>>(reason@),
            },
    {
        match self.error {
            Some(reason) => Err(
                String::from_str("Walrus download failed: ").concat(reason.as_str()),
            ),
            None => {
                let succeeded = match self.success {
                    Some(flag) => flag,
                    None => false,
                };
                if succeeded {
                    Ok(
                        match self.size {
                            Some(bytes) => bytes,
                            None => 0,
                        },
                    )
                } else {
                    Err(String::from_str("Download failed"))
                }
            },
        }
    }
}

impl WalrusCli {
    /// The client as it is installed by default: `deno` on the path, and the
    /// script relative to the client's own directory.
    pub fn new() -> (cli: Self)
        ensures
            cli.deno_path@ == "deno"@,
            cli.cli_script@ == "src/walrus-cli.ts"@,
    {
        Self {
            deno_path: String::from_str("deno"),
            cli_script: String::from_str("src/walrus-cli.ts"),
        }
    }

    /// A client with its runtime and its script in other places.
    pub fn with_paths(deno_path: String, cli_script: String) -> (cli: Self)
        ensures
            cli.deno_path == deno_path,
            cli.cli_script == cli_script,
    {
        Self { deno_path, cli_script }
    }

    /// Turns a path inside the container (`/app/...`) into one relative to
    /// the repository (`data/...`).
    pub fn normalize_path_for_deno(file_path: &str) -> (normalized: String)
        ensures
            normalized@ == normalized_path(file_path@),
    {
        let stripped = match strip_prefix(file_path, "/app/") {
            Some(rest) => rest,
            None => match strip_prefix(file_path, "/") {
                Some(rest) => rest,
                None => file_path,
            },
        };
        if starts_with(stripped, "data/") {
            String::from_str(stripped)
        } else if starts_with(stripped, "app/data/") {
            String::from_str(trim_start_matches(stripped, "app/"))
        } else {
            String::from_str(stripped)
        }
    }

    /// The argument that names `file_path` to the client.
    pub fn client_path(file_path: &str) -> (argument: String)
        ensures
            argument@ == client_path(file_path@),
    {
        let normalized = Self::normalize_path_for_deno(file_path);
        String::from_str("../").concat(normalized.as_str())
    }

    /// The first arguments of every run.
    fn run_arguments(&self) -> (arguments: Vec<String>)
        ensures
            arguments.deep_view() == run_arguments(self.cli_script@),
    {
        let mut arguments: Vec<String> = Vec::new();
        arguments.push(String::from_str("run"));
        arguments.push(String::from_str("--allow-net"));
        arguments.push(String::from_str("--allow-read"));
        arguments.push(String::from_str("--allow-env"));
        arguments.push(String::from_str("--allow-write"));
        arguments.push(String::from_str("--allow-sys"));
        arguments.push(self.cli_script.clone());
        assert(arguments.deep_view() =~= run_arguments(self.cli_script@));
        arguments
    }

    /// The command that uploads `file_path`.
    pub fn upload_command(&self, file_path: &str) -> (command: WalrusCommand)
        ensures
            command.program@ == self.deno_path@,
            command.working_dir@ == "mothrbox_ts"@,
            command.arguments.deep_view() == upload_arguments(self.cli_script@, file_path@),
    {
        let mut arguments = self.run_arguments();
        arguments.push(String::from_str("upload"));
        arguments.push(Self::client_path(file_path));
        assert(arguments.deep_view() =~= upload_arguments(self.cli_script@, file_path@));
        WalrusCommand {
            program: self.deno_path.clone(),
            working_dir: String::from_str("mothrbox_ts"),
            arguments,
        }
    }

    /// The command that downloads `blob_id` to `output_path`.
    pub fn download_command(&self, blob_id: &str, output_path: &str) -> (command: WalrusCommand)
        ensures
            command.program@ == self.deno_path@,
            command.working_dir@ == "mothrbox_ts"@,
            command.arguments.deep_view() == download_arguments(
                self.cli_script@,
                blob_id@,
                output_path@,
            ),
    {
        let mut arguments = self.run_arguments();
        arguments.push(String::from_str("download"));
        arguments.push(String::from_str(blob_id));
        arguments.push(Self::client_path(output_path));
        assert(arguments.deep_view() =~= download_arguments(
            self.cli_script@,
            blob_id@,
            output_path@,
        ));
        WalrusCommand {
            program: self.deno_path.clone(),
            working_dir: String::from_str("mothrbox_ts"),
            arguments,
        }
    }
}

/// The path of the encrypted copy of `path`.
pub fn encrypted_path(path: &str) -> (encrypted: String)
    ensures
        encrypted@ == encrypted_path_of(path@),
{
    String::from_str(path).concat(".enc")
}

/// The path inside the container that `output_path` stands for.
pub fn internal_output_path(output_path: &str) -> (internal: String)
    ensures
        internal@ == internal_path(output_path@),
{
    if starts_with(output_path, "/data/") {
        String::from_str("/app").concat(output_path)
    } else {
        String::from_str(output_path)
    }
}

} // verus!
