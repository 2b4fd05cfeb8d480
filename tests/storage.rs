use neuradesci_core::ipfs::{cid_to_url, create_metadata, IPFSClient, IpfsError};
use neuradesci_core::neural_data::{BrainStudyMetadata, NeuralDataFormat};
use neuradesci_core::records::{NeuroscienceDataset, ResearcherCredential};
use neuradesci_core::upload_to_ipfs;

#[test]
fn test_metadata_creation() {
    let metadata = create_metadata(
        "application/json",
        "brain_scan_data.json",
        1024,
        true,
        Some("AES-256"),
        vec!["neuroscience".to_string(), "fMRI".to_string()],
    );

    assert_eq!(metadata.content_type, "application/json");
    assert_eq!(metadata.name, "brain_scan_data.json");
    assert_eq!(metadata.size, 1024);
    assert!(metadata.encrypted);
    assert_eq!(metadata.encryption_algorithm, Some("AES-256".to_string()));
    assert_eq!(metadata.tags.len(), 2);
}

#[test]
fn test_ipfs_client() {
    let client = IPFSClient::new("http://localhost:5001/api/v0", "https://ipfs.io");

    let metadata = create_metadata("text/plain", "test.txt", 11, false, None, vec!["test".to_string()]);

    let cid = client.add("Hello World".as_bytes(), &metadata).unwrap();
    assert!(cid.starts_with("Qm"));

    let gateway_url = client.get_gateway_url(&cid);
    assert!(gateway_url.contains("/ipfs/"));
}

#[test]
fn test_cid_to_url() {
    let url = cid_to_url("QmTest123", "https://gateway.ipfs.io");
    assert_eq!(url, "https://gateway.ipfs.io/ipfs/QmTest123");
}

#[test]
fn add_derives_cid_from_content_digest() {
    let client = IPFSClient::new("http://localhost:5001/api/v0", "https://ipfs.io");
    let metadata = create_metadata("text/plain", "test.txt", 11, false, None, Vec::new());
    let cid = client.add("Hello World".as_bytes(), &metadata).unwrap();
    assert_eq!(cid, "Qma591a6d40bf420404a011733cfb7b190d62c65");
    assert_eq!(client.get_gateway_url(&cid), "https://ipfs.io/ipfs/Qma591a6d40bf420404a011733cfb7b190d62c65");
}

#[test]
fn get_pin_and_unpin_check_the_prefix() {
    let client = IPFSClient::new("http://localhost:5001/api/v0", "https://ipfs.io");
    assert_eq!(client.get("QmAbc").unwrap(), b"Mock content for CID: QmAbc".to_vec());
    assert_eq!(client.get("XyAbc"), Err(IpfsError::InvalidCid));
    assert_eq!(client.get("Q"), Err(IpfsError::InvalidCid));
    assert_eq!(client.pin("QmAbc"), Ok(()));
    assert_eq!(client.pin("qmAbc"), Err(IpfsError::InvalidCid));
    assert_eq!(client.unpin("Qm"), Ok(()));
    assert_eq!(client.unpin(""), Err(IpfsError::InvalidCid));
}

#[test]
fn metadata_without_algorithm() {
    let metadata = create_metadata("text/plain", "a.txt", 0, false, None, Vec::new());
    assert_eq!(metadata.encryption_algorithm, None);
    assert!(metadata.created_at > 0);
}

#[test]
fn test_brain_study_metadata() {
    let mut metadata = BrainStudyMetadata::new("S001", "EEG Study", "University Hospital");

    metadata.add_researcher("Dr. Jane Smith");
    metadata.add_equipment("EEG Device", "BrainAmp 64 Channel");
    metadata.age = Some(45);
    metadata.sex = Some("M".to_string());

    assert_eq!(metadata.subject_id, "S001");
    assert_eq!(metadata.researchers.len(), 1);
    assert_eq!(metadata.equipment.len(), 1);
    assert_eq!(metadata.age, Some(45));
}

#[test]
fn equipment_details_are_replaced_by_name() {
    let mut metadata = BrainStudyMetadata::new("S001", "EEG Study", "University Hospital");
    metadata.add_equipment("EEG Device", "old");
    metadata.add_equipment("Scanner", "3T");
    metadata.add_equipment("EEG Device", "new");
    assert_eq!(
        metadata.equipment,
        vec![
            ("EEG Device".to_string(), "new".to_string()),
            ("Scanner".to_string(), "3T".to_string())
        ]
    );
    assert_eq!(metadata.study_date.len(), 10);
}

#[test]
fn formats_compare_by_variant() {
    assert_eq!(NeuralDataFormat::EEG, NeuralDataFormat::EEG);
    assert_ne!(NeuralDataFormat::EEG, NeuralDataFormat::MEG);
}

#[test]
fn credentials_and_datasets() {
    let mut credential = ResearcherCredential::new("r1", "Ada", "EEG", "Uni");
    credential.add_publication("doi:1");
    credential.add_publication("doi:2");
    assert_eq!(credential.publications, vec!["doi:1".to_string(), "doi:2".to_string()]);
    assert_eq!(credential.private_key, None);

    let mut dataset = NeuroscienceDataset::new("d1", "T", "D", "EEG", "QmX", "r1", 7, "CC-BY");
    assert!(!dataset.is_private);
    dataset.add_keyword("sleep");
    dataset.set_private(true);
    assert!(dataset.is_private);
    assert_eq!(dataset.keywords, vec!["sleep".to_string()]);
    assert_eq!(dataset.timestamp, 7);
}

#[test]
fn upload_stub_returns_fixed_cid() {
    assert_eq!(upload_to_ipfs("anything"), "QmSampleHashIPFSStub12345");
}
