//! Errors of the deployment pipeline.

use vstd::prelude::*;

verus! {

/// An error of the deployment pipeline.
#[derive(Debug)]
pub enum DeploymentError {
    /// The artifact is not validated or has no generated files.
    ArtifactNotDeployable(String),
    /// The deployment strategy failed.
    StrategyExecutionFailed(String),
    /// One deployment phase failed.
    PhaseFailed(String),
    /// The rollback failed.
    RollbackFailed(String),
    /// The source-hosting integration failed.
    GitHubError(String),
    /// A health check found a regression or a failure.
    HealthCheckFailed(String),
    /// The deployment timed out.
    Timeout(String),
    /// Observation feedback could not be generated.
    FeedbackError(String),
    /// The configuration is invalid.
    ConfigurationError(String),
}

/// Display form of an error.
pub open spec fn spec_deployment_error_text(e: DeploymentError) -> Seq<char> {
    match e {
        DeploymentError::ArtifactNotDeployable(m) => "Artifact not deployable: "@ + m@,
        DeploymentError::StrategyExecutionFailed(m) => "Strategy execution failed: "@ + m@,
        DeploymentError::PhaseFailed(m) => "Phase failed: "@ + m@,
        DeploymentError::RollbackFailed(m) => "Rollback failed: "@ + m@,
        DeploymentError::GitHubError(m) => "GitHub error: "@ + m@,
        DeploymentError::HealthCheckFailed(m) => "Health check failed: "@ + m@,
        DeploymentError::Timeout(m) => "Deployment timeout: "@ + m@,
        DeploymentError::FeedbackError(m) => "Feedback error: "@ + m@,
        DeploymentError::ConfigurationError(m) => "Configuration error: "@ + m@,
    }
}

impl DeploymentError {
    /// Renders the error with its message.
    pub fn to_string(&self) -> (s: String)
        ensures
            s@ == spec_deployment_error_text(*self),
    {
        let (prefix, m) = match self {
            DeploymentError::ArtifactNotDeployable(m) => ("Artifact not deployable: ", m),
            DeploymentError::StrategyExecutionFailed(m) => ("Strategy execution failed: ", m),
            DeploymentError::PhaseFailed(m) => ("Phase failed: ", m),
            DeploymentError::RollbackFailed(m) => ("Rollback failed: ", m),
            DeploymentError::GitHubError(m) => ("GitHub error: ", m),
            DeploymentError::HealthCheckFailed(m) => ("Health check failed: ", m),
            DeploymentError::Timeout(m) => ("Deployment timeout: ", m),
            DeploymentError::FeedbackError(m) => ("Feedback error: ", m),
            DeploymentError::ConfigurationError(m) => ("Configuration error: ", m),
        };
        let mut s = String::from_str(prefix);
        s.append(m.as_str());
        s
    }
}

/// Result of a deployment operation.
pub type DeploymentResult<T> = Result<T, DeploymentError>;

} // verus!
