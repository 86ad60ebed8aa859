use mothrbox::walrus::{WalrusCli, WalrusDownloadResponse, WalrusUploadResponse};

#[test]
fn test_walrus_cli_paths() {
    let cli = WalrusCli::new();
    assert_eq!(cli.deno_path, "deno");
}

#[test]
fn test_normalize_path_for_deno() {
    assert_eq!(
        WalrusCli::normalize_path_for_deno("/app/data/test.enc"),
        "data/test.enc".to_string()
    );
    assert_eq!(
        WalrusCli::normalize_path_for_deno("data/test.enc"),
        "data/test.enc".to_string()
    );
    assert_eq!(
        WalrusCli::normalize_path_for_deno("/data/test.enc"),
        "data/test.enc".to_string()
    );
}

#[test]
fn default_script_is_relative_to_the_client() {
    let cli = WalrusCli::new();
    assert_eq!(cli.cli_script, "src/walrus-cli.ts");
}

#[test]
fn with_paths_keeps_both_paths() {
    let cli = WalrusCli::with_paths("/usr/bin/deno".to_string(), "cli.ts".to_string());
    assert_eq!(cli.deno_path, "/usr/bin/deno");
    assert_eq!(cli.cli_script, "cli.ts");
}

#[test]
fn normalize_strips_app_before_data() {
    assert_eq!(WalrusCli::normalize_path_for_deno("app/data/x.enc"), "data/x.enc");
    assert_eq!(WalrusCli::normalize_path_for_deno("/app/app/data/x.enc"), "data/x.enc");
    assert_eq!(WalrusCli::normalize_path_for_deno("/app/other/x.enc"), "other/x.enc");
    assert_eq!(WalrusCli::normalize_path_for_deno("relative.enc"), "relative.enc");
    assert_eq!(WalrusCli::normalize_path_for_deno(""), "");
    assert_eq!(WalrusCli::normalize_path_for_deno("/"), "");
    assert_eq!(WalrusCli::normalize_path_for_deno("//x"), "/x");
    assert_eq!(WalrusCli::normalize_path_for_deno("/données/é.enc"), "données/é.enc");
}

#[test]
fn client_path_points_one_directory_up() {
    assert_eq!(WalrusCli::client_path("/app/data/secret.pdf.enc"), "../data/secret.pdf.enc");
}

#[test]
fn upload_command_lists_permissions_script_and_path() {
    let cli = WalrusCli::new();
    let command = cli.upload_command("/app/data/secret.pdf.enc");
    assert_eq!(command.program, "deno");
    assert_eq!(command.working_dir, "mothrbox_ts");
    assert_eq!(
        command.arguments,
        vec![
            "run",
            "--allow-net",
            "--allow-read",
            "--allow-env",
            "--allow-write",
            "--allow-sys",
            "src/walrus-cli.ts",
            "upload",
            "../data/secret.pdf.enc",
        ]
    );
}

#[test]
fn download_command_names_blob_and_output() {
    let cli = WalrusCli::with_paths("deno2".to_string(), "other.ts".to_string());
    let command = cli.download_command("blob-123", "/data/out.enc");
    assert_eq!(command.program, "deno2");
    assert_eq!(
        command.arguments,
        vec![
            "run",
            "--allow-net",
            "--allow-read",
            "--allow-env",
            "--allow-write",
            "--allow-sys",
            "other.ts",
            "download",
            "blob-123",
            "../data/out.enc",
        ]
    );
}

#[test]
fn upload_response_with_error_fails() {
    let response = WalrusUploadResponse {
        blob_id: Some("abc".to_string()),
        error: Some("quota".to_string()),
    };
    assert_eq!(response.into_result(), Err("Walrus upload failed: quota".to_string()));
}

#[test]
fn upload_response_yields_blob_id() {
    let response = WalrusUploadResponse { blob_id: Some("abc".to_string()), error: None };
    assert_eq!(response.into_result(), Ok("abc".to_string()));
}

#[test]
fn upload_response_without_id_fails() {
    let response = WalrusUploadResponse { blob_id: None, error: None };
    assert_eq!(response.into_result(), Err("No blob ID in response".to_string()));
}

#[test]
fn download_response_reports_size() {
    let response = WalrusDownloadResponse {
        success: Some(true),
        output: Some("out".to_string()),
        size: Some(42),
        error: None,
    };
    assert_eq!(response.into_result(), Ok(42));
    let response =
        WalrusDownloadResponse { success: Some(true), output: None, size: None, error: None };
    assert_eq!(response.into_result(), Ok(0));
}

#[test]
fn download_response_without_success_fails() {
    let response =
        WalrusDownloadResponse { success: None, output: None, size: Some(1), error: None };
    assert_eq!(response.into_result(), Err("Download failed".to_string()));
    let response =
        WalrusDownloadResponse { success: Some(false), output: None, size: None, error: None };
    assert_eq!(response.into_result(), Err("Download failed".to_string()));
    let response = WalrusDownloadResponse {
        success: Some(true),
        output: None,
        size: None,
        error: Some("gone".to_string()),
    };
    assert_eq!(response.into_result(), Err("Walrus download failed: gone".to_string()));
}
